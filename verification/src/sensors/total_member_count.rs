//! Member count sensors.

use crate::codec::{
    decoded, get, group_lookup, lemma_required, lookup, one, put, required, written, Codec,
    DecodeError, Fields, Model,
};
use crate::sensors::{
    registered, FromSensorTemplate, SensorMetadata, SensorMetadataView, SensorTemplate,
    SensorTemplateError, Sensors, SensorsView,
};
use crate::text::{parse_u64, whole_number};
use crate::value::{group_value_view, Value, ValueView};
use vstd::prelude::*;

verus! {

/// How many members a space has.
#[derive(Debug, Default, PartialEq, Eq)]
pub struct TotalMemberCountSensor {
    pub metadata: SensorMetadata,
    pub value: u64,
}

/// The mathematical model of a [`TotalMemberCountSensor`].
pub struct TotalMemberCountSensorView {
    pub metadata: SensorMetadataView,
    pub value: u64,
}

impl DeepView for TotalMemberCountSensor {
    type V = TotalMemberCountSensorView;

    open spec fn deep_view(&self) -> TotalMemberCountSensorView {
        TotalMemberCountSensorView {
            metadata: self.metadata.deep_view(),
            value: self.value.deep_view(),
        }
    }
}

impl View for TotalMemberCountSensor {
    type V = TotalMemberCountSensorView;

    open spec fn view(&self) -> TotalMemberCountSensorView {
        self.deep_view()
    }
}

impl Clone for TotalMemberCountSensor {
    fn clone(&self) -> (r: Self)
        ensures
            r@ == self@,
    {
        let metadata = self.metadata.clone();
        let value = self.value.clone();
        TotalMemberCountSensor { metadata, value }
    }
}

impl TotalMemberCountSensorView {
    /// The fields of an object after this record was written behind `before`.
    #[verifier::opaque]
    pub open spec fn fields_after(self, before: Fields) -> Fields {
        self.metadata.fields_after(before)
            + one("value"@, self.value.encode())
    }

    /// The fields that stand for this record.
    pub open spec fn fields(self) -> Fields {
        self.fields_after(Seq::empty())
    }

    /// The record that the fields of an object stand for, or the error of the
    /// first of its fields, in their order here, that cannot be read.
    #[verifier::opaque]
    pub open spec fn from_fields(fields: Fields) -> Result<Self, DecodeError> {
        let metadata = SensorMetadataView::from_fields(fields);
        let value = required::<u64>(fields, "value");
        if metadata is Err {
            Err(metadata->Err_0)
        } else if value is Err {
            Err(value->Err_0)
        } else {
            Ok(TotalMemberCountSensorView {
                metadata: metadata->Ok_0,
                value: value->Ok_0,
            })
        }
    }

    /// What the written record holds under each of its keys: the tree of a
    /// value that is set, and nothing for one that is left out.
    pub proof fn lemma_fields(self)
        ensures
            lookup(self.fields(), "name"@) == written(self.metadata.name),
            lookup(self.fields(), "location"@) == written(self.metadata.location),
            lookup(self.fields(), "description"@) == written(self.metadata.description),
            lookup(self.fields(), "value"@) == Some(self.value.encode()),
    {
        broadcast use group_lookup;

        reveal(TotalMemberCountSensorView::fields_after);
        reveal(SensorMetadataView::fields_after);
        reveal_strlit("name");
        reveal_strlit("location");
        reveal_strlit("description");
        reveal_strlit("value");
    }

    /// Fields that hold under each key of this record what the record writes
    /// there stand for this record.
    pub proof fn lemma_from_fields(self, fields: Fields)
        requires
            self.valid(),
            lookup(fields, "name"@) == written(self.metadata.name),
            lookup(fields, "location"@) == written(self.metadata.location),
            lookup(fields, "description"@) == written(self.metadata.description),
            lookup(fields, "value"@) == Some(self.value.encode()),
        ensures
            Self::from_fields(fields) == Ok::<Self, DecodeError>(self),
    {
        reveal(TotalMemberCountSensorView::from_fields);
        self.metadata.lemma_from_fields(fields);
        lemma_required(fields, "value", self.value);
    }
}

impl Model for TotalMemberCountSensorView {
    open spec fn encode(self) -> ValueView {
        ValueView::Object(self.fields())
    }

    open spec fn decode(v: ValueView) -> Result<Self, DecodeError> {
        match v {
            ValueView::Object(fields) => Self::from_fields(fields),
            _ => Err(DecodeError::InvalidType),
        }
    }

    open spec fn valid(self) -> bool {
        &&& self.metadata.valid()
    }

    proof fn lemma_round_trip(self) {
        self.lemma_fields();
        self.lemma_from_fields(self.fields());
    }
}

impl TotalMemberCountSensor {
    /// Appends the fields that stand for this record.
    pub fn put_fields(&self, fields: &mut Vec<(String, Value)>)
        ensures
            final(fields).deep_view() == self@.fields_after(old(fields).deep_view()),
    {
        reveal(TotalMemberCountSensorView::fields_after);
        self.metadata.put_fields(fields);
        put(fields, "value", &self.value);
    }

    /// Reads the record that the fields of an object stand for.
    pub fn from_fields(fields: &Vec<(String, Value)>) -> (r: Result<Self, DecodeError>)
        ensures
            decoded(r, TotalMemberCountSensorView::from_fields(fields.deep_view())),
    {
        reveal(TotalMemberCountSensorView::from_fields);
        let metadata = SensorMetadata::from_fields(fields)?;
        let value = get::<u64>(fields, "value")?;
        Ok(TotalMemberCountSensor { metadata, value })
    }
}

impl Codec for TotalMemberCountSensor {
    fn to_value(&self) -> (r: Value) {
        broadcast use group_value_view;

        let mut fields: Vec<(String, Value)> = Vec::new();
        assert(fields.deep_view() =~= Seq::empty());
        self.put_fields(&mut fields);
        Value::Object(fields)
    }

    fn from_value(v: &Value) -> (r: Result<Self, DecodeError>) {
        broadcast use group_value_view;

        match v {
            Value::Object(fields) => Self::from_fields(fields),
            _ => Err(DecodeError::InvalidType),
        }
    }
}

/// A member count sensor without its reading.
#[derive(Debug)]
pub struct TotalMemberCountSensorTemplate {
    pub metadata: SensorMetadata,
}

/// The mathematical model of a [`TotalMemberCountSensorTemplate`].
pub struct TotalMemberCountSensorTemplateView {
    pub metadata: SensorMetadataView,
}

impl DeepView for TotalMemberCountSensorTemplate {
    type V = TotalMemberCountSensorTemplateView;

    open spec fn deep_view(&self) -> TotalMemberCountSensorTemplateView {
        TotalMemberCountSensorTemplateView {
            metadata: self.metadata.deep_view(),
        }
    }
}

impl View for TotalMemberCountSensorTemplate {
    type V = TotalMemberCountSensorTemplateView;

    open spec fn view(&self) -> TotalMemberCountSensorTemplateView {
        self.deep_view()
    }
}

impl Clone for TotalMemberCountSensorTemplate {
    fn clone(&self) -> (r: Self)
        ensures
            r@ == self@,
    {
        let metadata = self.metadata.clone();
        TotalMemberCountSensorTemplate { metadata }
    }
}

impl FromSensorTemplate<TotalMemberCountSensorTemplate> for TotalMemberCountSensor {
    /// The template's fields and the value that the text stands for. A text
    /// that stands for none makes no sensor.
    open spec fn from_reading(
        template: TotalMemberCountSensorTemplateView,
        value: Seq<char>,
    ) -> Result<Self::V, SensorTemplateError> {
        match whole_number(value) {
            Some(value) => Ok(TotalMemberCountSensorView { metadata: template.metadata, value }),
            None => Err(SensorTemplateError::BadInteger),
        }
    }

    fn try_from_template(
        template: &TotalMemberCountSensorTemplate,
        value: &str,
    ) -> (r: Result<Self, SensorTemplateError>) {
        match parse_u64(value) {
            Some(value) => Ok(
                TotalMemberCountSensor { metadata: template.metadata.clone(), value },
            ),
            None => Err(SensorTemplateError::BadInteger),
        }
    }
}

impl SensorTemplate for TotalMemberCountSensorTemplate {
    /// The sensors with one more of this kind.
    open spec fn registered(
        template: Self::V,
        value: Seq<char>,
        sensors: SensorsView,
    ) -> Result<SensorsView, SensorTemplateError> {
        match TotalMemberCountSensor::from_reading(template, value) {
            Ok(sensor) => Ok(
                SensorsView {
                    total_member_count: sensors.total_member_count.push(sensor),
                    ..sensors
                },
            ),
            Err(e) => Err(e),
        }
    }

    fn try_to_sensor(
        &self,
        value_str: &str,
        sensors: &mut Sensors,
    ) -> (r: Result<(), SensorTemplateError>) {
        let sensor = TotalMemberCountSensor::try_from_template(self, value_str)?;
        let ghost before = sensors.total_member_count.deep_view();
        sensors.total_member_count.push(sensor);
        assert(sensors.total_member_count.deep_view() =~= before.push(sensor@));
        Ok(())
    }
}

} // verus!
