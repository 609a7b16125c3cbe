//! Door lock sensors.

use crate::codec::{
    decoded, get, group_lookup, lemma_required, lookup, one, put, required, written, Codec,
    DecodeError, Fields, Model,
};
use crate::sensors::{
    registered, FromSensorTemplate, SensorMetadataWithLocation, SensorMetadataWithLocationView,
    SensorTemplate, SensorTemplateError, Sensors, SensorsView,
};
use crate::text::{parse_bool, truth};
use crate::value::{group_value_view, Value, ValueView};
use vstd::prelude::*;

verus! {

/// The reading of a door lock sensor.
#[derive(Debug, Default, PartialEq, Eq)]
pub struct DoorLockedSensor {
    pub metadata: SensorMetadataWithLocation,
    pub value: bool,
}

/// The mathematical model of a [`DoorLockedSensor`].
pub struct DoorLockedSensorView {
    pub metadata: SensorMetadataWithLocationView,
    pub value: bool,
}

impl DeepView for DoorLockedSensor {
    type V = DoorLockedSensorView;

    open spec fn deep_view(&self) -> DoorLockedSensorView {
        DoorLockedSensorView {
            metadata: self.metadata.deep_view(),
            value: self.value.deep_view(),
        }
    }
}

impl View for DoorLockedSensor {
    type V = DoorLockedSensorView;

    open spec fn view(&self) -> DoorLockedSensorView {
        self.deep_view()
    }
}

impl Clone for DoorLockedSensor {
    fn clone(&self) -> (r: Self)
        ensures
            r@ == self@,
    {
        let metadata = self.metadata.clone();
        let value = self.value.clone();
        DoorLockedSensor { metadata, value }
    }
}

impl DoorLockedSensorView {
    /// The fields of an object after this record was written behind `before`.
    #[verifier::opaque]
    pub open spec fn fields_after(self, before: Fields) -> Fields {
        self.metadata.fields_after(before)
            + one("value"@, self.value.encode())
    }

    /// The fields that stand for this record.
    pub open spec fn fields(self) -> Fields {
        self.fields_after(Seq::empty())
    }

    /// The record that the fields of an object stand for, or the error of the
    /// first of its fields, in their order here, that cannot be read.
    #[verifier::opaque]
    pub open spec fn from_fields(fields: Fields) -> Result<Self, DecodeError> {
        let metadata = SensorMetadataWithLocationView::from_fields(fields);
        let value = required::<bool>(fields, "value");
        if metadata is Err {
            Err(metadata->Err_0)
        } else if value is Err {
            Err(value->Err_0)
        } else {
            Ok(DoorLockedSensorView {
                metadata: metadata->Ok_0,
                value: value->Ok_0,
            })
        }
    }

    /// What the written record holds under each of its keys: the tree of a
    /// value that is set, and nothing for one that is left out.
    pub proof fn lemma_fields(self)
        ensures
            lookup(self.fields(), "name"@) == written(self.metadata.name),
            lookup(self.fields(), "location"@) == Some(self.metadata.location.encode()),
            lookup(self.fields(), "description"@) == written(self.metadata.description),
            lookup(self.fields(), "value"@) == Some(self.value.encode()),
    {
        broadcast use group_lookup;

        reveal(DoorLockedSensorView::fields_after);
        reveal(SensorMetadataWithLocationView::fields_after);
        reveal_strlit("name");
        reveal_strlit("location");
        reveal_strlit("description");
        reveal_strlit("value");
    }

    /// Fields that hold under each key of this record what the record writes
    /// there stand for this record.
    pub proof fn lemma_from_fields(self, fields: Fields)
        requires
            self.valid(),
            lookup(fields, "name"@) == written(self.metadata.name),
            lookup(fields, "location"@) == Some(self.metadata.location.encode()),
            lookup(fields, "description"@) == written(self.metadata.description),
            lookup(fields, "value"@) == Some(self.value.encode()),
        ensures
            Self::from_fields(fields) == Ok::<Self, DecodeError>(self),
    {
        reveal(DoorLockedSensorView::from_fields);
        self.metadata.lemma_from_fields(fields);
        lemma_required(fields, "value", self.value);
    }
}

impl Model for DoorLockedSensorView {
    open spec fn encode(self) -> ValueView {
        ValueView::Object(self.fields())
    }

    open spec fn decode(v: ValueView) -> Result<Self, DecodeError> {
        match v {
            ValueView::Object(fields) => Self::from_fields(fields),
            _ => Err(DecodeError::InvalidType),
        }
    }

    open spec fn valid(self) -> bool {
        &&& self.metadata.valid()
    }

    proof fn lemma_round_trip(self) {
        self.lemma_fields();
        self.lemma_from_fields(self.fields());
    }
}

impl DoorLockedSensor {
    /// Appends the fields that stand for this record.
    pub fn put_fields(&self, fields: &mut Vec<(String, Value)>)
        ensures
            final(fields).deep_view() == self@.fields_after(old(fields).deep_view()),
    {
        reveal(DoorLockedSensorView::fields_after);
        self.metadata.put_fields(fields);
        put(fields, "value", &self.value);
    }

    /// Reads the record that the fields of an object stand for.
    pub fn from_fields(fields: &Vec<(String, Value)>) -> (r: Result<Self, DecodeError>)
        ensures
            decoded(r, DoorLockedSensorView::from_fields(fields.deep_view())),
    {
        reveal(DoorLockedSensorView::from_fields);
        let metadata = SensorMetadataWithLocation::from_fields(fields)?;
        let value = get::<bool>(fields, "value")?;
        Ok(DoorLockedSensor { metadata, value })
    }
}

impl Codec for DoorLockedSensor {
    fn to_value(&self) -> (r: Value) {
        broadcast use group_value_view;

        let mut fields: Vec<(String, Value)> = Vec::new();
        assert(fields.deep_view() =~= Seq::empty());
        self.put_fields(&mut fields);
        Value::Object(fields)
    }

    fn from_value(v: &Value) -> (r: Result<Self, DecodeError>) {
        broadcast use group_value_view;

        match v {
            Value::Object(fields) => Self::from_fields(fields),
            _ => Err(DecodeError::InvalidType),
        }
    }
}

/// A door lock sensor without its reading.
#[derive(Debug)]
pub struct DoorLockedSensorTemplate {
    pub metadata: SensorMetadataWithLocation,
}

/// The mathematical model of a [`DoorLockedSensorTemplate`].
pub struct DoorLockedSensorTemplateView {
    pub metadata: SensorMetadataWithLocationView,
}

impl DeepView for DoorLockedSensorTemplate {
    type V = DoorLockedSensorTemplateView;

    open spec fn deep_view(&self) -> DoorLockedSensorTemplateView {
        DoorLockedSensorTemplateView {
            metadata: self.metadata.deep_view(),
        }
    }
}

impl View for DoorLockedSensorTemplate {
    type V = DoorLockedSensorTemplateView;

    open spec fn view(&self) -> DoorLockedSensorTemplateView {
        self.deep_view()
    }
}

impl Clone for DoorLockedSensorTemplate {
    fn clone(&self) -> (r: Self)
        ensures
            r@ == self@,
    {
        let metadata = self.metadata.clone();
        DoorLockedSensorTemplate { metadata }
    }
}

impl FromSensorTemplate<DoorLockedSensorTemplate> for DoorLockedSensor {
    /// The template's fields and the value that the text stands for. A text
    /// that stands for none makes no sensor.
    open spec fn from_reading(
        template: DoorLockedSensorTemplateView,
        value: Seq<char>,
    ) -> Result<Self::V, SensorTemplateError> {
        match truth(value) {
            Some(value) => Ok(DoorLockedSensorView { metadata: template.metadata, value }),
            None => Err(SensorTemplateError::BadBool),
        }
    }

    fn try_from_template(
        template: &DoorLockedSensorTemplate,
        value: &str,
    ) -> (r: Result<Self, SensorTemplateError>) {
        match parse_bool(value) {
            Some(value) => Ok(DoorLockedSensor { metadata: template.metadata.clone(), value }),
            None => Err(SensorTemplateError::BadBool),
        }
    }
}

impl SensorTemplate for DoorLockedSensorTemplate {
    /// The sensors with one more of this kind.
    open spec fn registered(
        template: Self::V,
        value: Seq<char>,
        sensors: SensorsView,
    ) -> Result<SensorsView, SensorTemplateError> {
        match DoorLockedSensor::from_reading(template, value) {
            Ok(sensor) => Ok(
                SensorsView { door_locked: sensors.door_locked.push(sensor), ..sensors },
            ),
            Err(e) => Err(e),
        }
    }

    fn try_to_sensor(
        &self,
        value_str: &str,
        sensors: &mut Sensors,
    ) -> (r: Result<(), SensorTemplateError>) {
        let sensor = DoorLockedSensor::try_from_template(self, value_str)?;
        let ghost before = sensors.door_locked.deep_view();
        sensors.door_locked.push(sensor);
        assert(sensors.door_locked.deep_view() =~= before.push(sensor@));
        Ok(())
    }
}

} // verus!
