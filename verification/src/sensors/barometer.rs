//! Barometers.

use crate::codec::{
    decoded, get, group_lookup, lemma_required, lookup, one, put, required, written, Codec,
    DecodeError, Fields, Model,
};
use crate::number::Double;
use crate::sensors::{
    kept, made, registered, SensorMetadataWithLocation, SensorMetadataWithLocationView,
    SensorTemplateError, Sensors, SensorsView,
};
use crate::value::{group_value_view, Value, ValueView};
use vstd::prelude::*;

verus! {

/// The reading of a barometer.
#[derive(Debug, Default, PartialEq, Eq)]
pub struct BarometerSensor {
    pub metadata: SensorMetadataWithLocation,
    pub unit: String,
    pub value: Double,
}

/// The mathematical model of a [`BarometerSensor`].
pub struct BarometerSensorView {
    pub metadata: SensorMetadataWithLocationView,
    pub unit: Seq<char>,
    pub value: Double,
}

impl DeepView for BarometerSensor {
    type V = BarometerSensorView;

    open spec fn deep_view(&self) -> BarometerSensorView {
        BarometerSensorView {
            metadata: self.metadata.deep_view(),
            unit: self.unit.deep_view(),
            value: self.value.deep_view(),
        }
    }
}

impl View for BarometerSensor {
    type V = BarometerSensorView;

    open spec fn view(&self) -> BarometerSensorView {
        self.deep_view()
    }
}

impl Clone for BarometerSensor {
    fn clone(&self) -> (r: Self)
        ensures
            r@ == self@,
    {
        let metadata = self.metadata.clone();
        let unit = self.unit.clone();
        let value = self.value.clone();
        BarometerSensor { metadata, unit, value }
    }
}

impl BarometerSensorView {
    /// The fields of an object after this record was written behind `before`.
    #[verifier::opaque]
    pub open spec fn fields_after(self, before: Fields) -> Fields {
        self.metadata.fields_after(before)
            + one("unit"@, self.unit.encode())
            + one("value"@, self.value.encode())
    }

    /// The fields that stand for this record.
    pub open spec fn fields(self) -> Fields {
        self.fields_after(Seq::empty())
    }

    /// The record that the fields of an object stand for, or the error of the
    /// first of its fields, in their order here, that cannot be read.
    #[verifier::opaque]
    pub open spec fn from_fields(fields: Fields) -> Result<Self, DecodeError> {
        let metadata = SensorMetadataWithLocationView::from_fields(fields);
        let unit = required::<Seq<char>>(fields, "unit");
        let value = required::<Double>(fields, "value");
        if metadata is Err {
            Err(metadata->Err_0)
        } else if unit is Err {
            Err(unit->Err_0)
        } else if value is Err {
            Err(value->Err_0)
        } else {
            Ok(BarometerSensorView {
                metadata: metadata->Ok_0,
                unit: unit->Ok_0,
                value: value->Ok_0,
            })
        }
    }

    /// What the written record holds under each of its keys: the tree of a
    /// value that is set, and nothing for one that is left out.
    pub proof fn lemma_fields(self)
        ensures
            lookup(self.fields(), "name"@) == written(self.metadata.name),
            lookup(self.fields(), "location"@) == Some(self.metadata.location.encode()),
            lookup(self.fields(), "description"@) == written(self.metadata.description),
            lookup(self.fields(), "unit"@) == Some(self.unit.encode()),
            lookup(self.fields(), "value"@) == Some(self.value.encode()),
    {
        broadcast use group_lookup;

        reveal(BarometerSensorView::fields_after);
        reveal(SensorMetadataWithLocationView::fields_after);
        reveal_strlit("name");
        reveal_strlit("location");
        reveal_strlit("description");
        reveal_strlit("unit");
        reveal_strlit("value");
    }

    /// Fields that hold under each key of this record what the record writes
    /// there stand for this record.
    pub proof fn lemma_from_fields(self, fields: Fields)
        requires
            self.valid(),
            lookup(fields, "name"@) == written(self.metadata.name),
            lookup(fields, "location"@) == Some(self.metadata.location.encode()),
            lookup(fields, "description"@) == written(self.metadata.description),
            lookup(fields, "unit"@) == Some(self.unit.encode()),
            lookup(fields, "value"@) == Some(self.value.encode()),
        ensures
            Self::from_fields(fields) == Ok::<Self, DecodeError>(self),
    {
        reveal(BarometerSensorView::from_fields);
        self.metadata.lemma_from_fields(fields);
        lemma_required(fields, "unit", self.unit);
        lemma_required(fields, "value", self.value);
    }
}

impl Model for BarometerSensorView {
    open spec fn encode(self) -> ValueView {
        ValueView::Object(self.fields())
    }

    open spec fn decode(v: ValueView) -> Result<Self, DecodeError> {
        match v {
            ValueView::Object(fields) => Self::from_fields(fields),
            _ => Err(DecodeError::InvalidType),
        }
    }

    open spec fn valid(self) -> bool {
        &&& self.metadata.valid()
        &&& self.value.valid()
    }

    proof fn lemma_round_trip(self) {
        self.lemma_fields();
        self.lemma_from_fields(self.fields());
    }
}

impl BarometerSensor {
    /// Appends the fields that stand for this record.
    pub fn put_fields(&self, fields: &mut Vec<(String, Value)>)
        ensures
            final(fields).deep_view() == self@.fields_after(old(fields).deep_view()),
    {
        reveal(BarometerSensorView::fields_after);
        self.metadata.put_fields(fields);
        put(fields, "unit", &self.unit);
        put(fields, "value", &self.value);
    }

    /// Reads the record that the fields of an object stand for.
    pub fn from_fields(fields: &Vec<(String, Value)>) -> (r: Result<Self, DecodeError>)
        ensures
            decoded(r, BarometerSensorView::from_fields(fields.deep_view())),
    {
        reveal(BarometerSensorView::from_fields);
        let metadata = SensorMetadataWithLocation::from_fields(fields)?;
        let unit = get::<String>(fields, "unit")?;
        let value = get::<Double>(fields, "value")?;
        Ok(BarometerSensor { metadata, unit, value })
    }
}

impl Codec for BarometerSensor {
    fn to_value(&self) -> (r: Value) {
        broadcast use group_value_view;

        let mut fields: Vec<(String, Value)> = Vec::new();
        assert(fields.deep_view() =~= Seq::empty());
        self.put_fields(&mut fields);
        Value::Object(fields)
    }

    fn from_value(v: &Value) -> (r: Result<Self, DecodeError>) {
        broadcast use group_value_view;

        match v {
            Value::Object(fields) => Self::from_fields(fields),
            _ => Err(DecodeError::InvalidType),
        }
    }
}

/// A barometer without its reading.
#[derive(Debug)]
pub struct BarometerSensorTemplate {
    pub metadata: SensorMetadataWithLocation,
    pub unit: String,
}

/// The mathematical model of a [`BarometerSensorTemplate`].
pub struct BarometerSensorTemplateView {
    pub metadata: SensorMetadataWithLocationView,
    pub unit: Seq<char>,
}

impl DeepView for BarometerSensorTemplate {
    type V = BarometerSensorTemplateView;

    open spec fn deep_view(&self) -> BarometerSensorTemplateView {
        BarometerSensorTemplateView {
            metadata: self.metadata.deep_view(),
            unit: self.unit.deep_view(),
        }
    }
}

impl View for BarometerSensorTemplate {
    type V = BarometerSensorTemplateView;

    open spec fn view(&self) -> BarometerSensorTemplateView {
        self.deep_view()
    }
}

impl Clone for BarometerSensorTemplate {
    fn clone(&self) -> (r: Self)
        ensures
            r@ == self@,
    {
        let metadata = self.metadata.clone();
        let unit = self.unit.clone();
        BarometerSensorTemplate { metadata, unit }
    }
}

impl BarometerSensorView {
    /// The sensor that a template makes of a reading: the template's fields
    /// and the number that was read. A reading that is no number makes none.
    pub open spec fn from_reading(
        template: BarometerSensorTemplateView,
        value: Option<Double>,
    ) -> Result<Self, SensorTemplateError> {
        match value {
            Some(value) => Ok(
                BarometerSensorView { metadata: template.metadata, unit: template.unit, value },
            ),
            None => Err(SensorTemplateError::BadFloat),
        }
    }

    /// The sensors after the sensor that a template makes of a reading was
    /// added to those of its kind.
    pub open spec fn registered(
        template: BarometerSensorTemplateView,
        value: Option<Double>,
        sensors: SensorsView,
    ) -> Result<SensorsView, SensorTemplateError> {
        match Self::from_reading(template, value) {
            Ok(sensor) => Ok(
                SensorsView { barometer: sensors.barometer.push(sensor), ..sensors },
            ),
            Err(e) => Err(e),
        }
    }
}

impl BarometerSensor {
    /// The sensor that `template` makes of a reading. The reading comes as the
    /// number that was read from its text, or as nothing where the text was
    /// no number.
    pub fn try_from_template(
        template: &BarometerSensorTemplate,
        value: Option<Double>,
    ) -> (r: Result<Self, SensorTemplateError>)
        ensures
            made(r, BarometerSensorView::from_reading(template@, value)),
    {
        match value {
            Some(value) => Ok(
                BarometerSensor {
                    metadata: template.metadata.clone(),
                    unit: template.unit.clone(),
                    value,
                },
            ),
            None => Err(SensorTemplateError::BadFloat),
        }
    }
}

impl BarometerSensorTemplate {
    /// Adds the sensor that the template makes of a reading. Where the reading
    /// is no number the sensors stay as they are.
    pub fn try_to_sensor(
        &self,
        value: Option<Double>,
        sensors: &mut Sensors,
    ) -> (r: Result<(), SensorTemplateError>)
        ensures
            registered(r, *old(sensors), *final(sensors), BarometerSensorView::registered(
                self@,
                value,
                old(sensors)@,
            )),
    {
        let sensor = BarometerSensor::try_from_template(self, value)?;
        let ghost before = sensors.barometer.deep_view();
        sensors.barometer.push(sensor);
        assert(sensors.barometer.deep_view() =~= before.push(sensor@));
        Ok(())
    }

    /// Adds the sensor that the template makes of a reading, and leaves the
    /// sensors as they are where the reading is no number.
    pub fn to_sensor(&self, value: Option<Double>, sensors: &mut Sensors)
        ensures
            final(sensors)@ == kept(old(sensors)@, BarometerSensorView::registered(
                self@,
                value,
                old(sensors)@,
            )),
    {
        let _ = self.try_to_sensor(value, sensors);
    }
}

} // verus!
