//! Wind sensors.

use crate::codec::{
    decoded, get, group_lookup, lemma_required, lookup, one, put, required, written, Codec,
    DecodeError, Fields, Model,
};
use crate::number::Double;
use crate::sensors::{SensorMetadataWithLocation, SensorMetadataWithLocationView};
use crate::value::{group_value_view, Value, ValueView};
use vstd::prelude::*;

verus! {

/// One measurement of a wind sensor.
#[derive(Debug, Default, PartialEq, Eq)]
pub struct WindSensorMeasurement {
    pub unit: String,
    pub value: Double,
}

/// The mathematical model of a [`WindSensorMeasurement`].
pub struct WindSensorMeasurementView {
    pub unit: Seq<char>,
    pub value: Double,
}

impl DeepView for WindSensorMeasurement {
    type V = WindSensorMeasurementView;

    open spec fn deep_view(&self) -> WindSensorMeasurementView {
        WindSensorMeasurementView {
            unit: self.unit.deep_view(),
            value: self.value.deep_view(),
        }
    }
}

impl View for WindSensorMeasurement {
    type V = WindSensorMeasurementView;

    open spec fn view(&self) -> WindSensorMeasurementView {
        self.deep_view()
    }
}

impl Clone for WindSensorMeasurement {
    fn clone(&self) -> (r: Self)
        ensures
            r@ == self@,
    {
        let unit = self.unit.clone();
        let value = self.value.clone();
        WindSensorMeasurement { unit, value }
    }
}

impl WindSensorMeasurementView {
    /// The fields of an object after this record was written behind `before`.
    #[verifier::opaque]
    pub open spec fn fields_after(self, before: Fields) -> Fields {
        before
            + one("unit"@, self.unit.encode())
            + one("value"@, self.value.encode())
    }

    /// The fields that stand for this record.
    pub open spec fn fields(self) -> Fields {
        self.fields_after(Seq::empty())
    }

    /// The record that the fields of an object stand for, or the error of the
    /// first of its fields, in their order here, that cannot be read.
    #[verifier::opaque]
    pub open spec fn from_fields(fields: Fields) -> Result<Self, DecodeError> {
        let unit = required::<Seq<char>>(fields, "unit");
        let value = required::<Double>(fields, "value");
        if unit is Err {
            Err(unit->Err_0)
        } else if value is Err {
            Err(value->Err_0)
        } else {
            Ok(WindSensorMeasurementView {
                unit: unit->Ok_0,
                value: value->Ok_0,
            })
        }
    }

    /// What the written record holds under each of its keys: the tree of a
    /// value that is set, and nothing for one that is left out.
    pub proof fn lemma_fields(self)
        ensures
            lookup(self.fields(), "unit"@) == Some(self.unit.encode()),
            lookup(self.fields(), "value"@) == Some(self.value.encode()),
    {
        broadcast use group_lookup;

        reveal(WindSensorMeasurementView::fields_after);
        reveal_strlit("unit");
        reveal_strlit("value");
    }

    /// Fields that hold under each key of this record what the record writes
    /// there stand for this record.
    pub proof fn lemma_from_fields(self, fields: Fields)
        requires
            self.valid(),
            lookup(fields, "unit"@) == Some(self.unit.encode()),
            lookup(fields, "value"@) == Some(self.value.encode()),
        ensures
            Self::from_fields(fields) == Ok::<Self, DecodeError>(self),
    {
        reveal(WindSensorMeasurementView::from_fields);
        lemma_required(fields, "unit", self.unit);
        lemma_required(fields, "value", self.value);
    }
}

impl Model for WindSensorMeasurementView {
    open spec fn encode(self) -> ValueView {
        ValueView::Object(self.fields())
    }

    open spec fn decode(v: ValueView) -> Result<Self, DecodeError> {
        match v {
            ValueView::Object(fields) => Self::from_fields(fields),
            _ => Err(DecodeError::InvalidType),
        }
    }

    open spec fn valid(self) -> bool {
        &&& self.value.valid()
    }

    proof fn lemma_round_trip(self) {
        self.lemma_fields();
        self.lemma_from_fields(self.fields());
    }
}

impl WindSensorMeasurement {
    /// Appends the fields that stand for this record.
    pub fn put_fields(&self, fields: &mut Vec<(String, Value)>)
        ensures
            final(fields).deep_view() == self@.fields_after(old(fields).deep_view()),
    {
        reveal(WindSensorMeasurementView::fields_after);
        put(fields, "unit", &self.unit);
        put(fields, "value", &self.value);
    }

    /// Reads the record that the fields of an object stand for.
    pub fn from_fields(fields: &Vec<(String, Value)>) -> (r: Result<Self, DecodeError>)
        ensures
            decoded(r, WindSensorMeasurementView::from_fields(fields.deep_view())),
    {
        reveal(WindSensorMeasurementView::from_fields);
        let unit = get::<String>(fields, "unit")?;
        let value = get::<Double>(fields, "value")?;
        Ok(WindSensorMeasurement { unit, value })
    }
}

impl Codec for WindSensorMeasurement {
    fn to_value(&self) -> (r: Value) {
        broadcast use group_value_view;

        let mut fields: Vec<(String, Value)> = Vec::new();
        assert(fields.deep_view() =~= Seq::empty());
        self.put_fields(&mut fields);
        Value::Object(fields)
    }

    fn from_value(v: &Value) -> (r: Result<Self, DecodeError>) {
        broadcast use group_value_view;

        match v {
            Value::Object(fields) => Self::from_fields(fields),
            _ => Err(DecodeError::InvalidType),
        }
    }
}

/// What a wind sensor measures.
#[derive(Debug, Default, PartialEq, Eq)]
pub struct WindSensorProperties {
    pub speed: WindSensorMeasurement,
    pub gust: WindSensorMeasurement,
    pub direction: WindSensorMeasurement,
    pub elevation: WindSensorMeasurement,
}

/// The mathematical model of a [`WindSensorProperties`].
pub struct WindSensorPropertiesView {
    pub speed: WindSensorMeasurementView,
    pub gust: WindSensorMeasurementView,
    pub direction: WindSensorMeasurementView,
    pub elevation: WindSensorMeasurementView,
}

impl DeepView for WindSensorProperties {
    type V = WindSensorPropertiesView;

    open spec fn deep_view(&self) -> WindSensorPropertiesView {
        WindSensorPropertiesView {
            speed: self.speed.deep_view(),
            gust: self.gust.deep_view(),
            direction: self.direction.deep_view(),
            elevation: self.elevation.deep_view(),
        }
    }
}

impl View for WindSensorProperties {
    type V = WindSensorPropertiesView;

    open spec fn view(&self) -> WindSensorPropertiesView {
        self.deep_view()
    }
}

impl Clone for WindSensorProperties {
    fn clone(&self) -> (r: Self)
        ensures
            r@ == self@,
    {
        let speed = self.speed.clone();
        let gust = self.gust.clone();
        let direction = self.direction.clone();
        let elevation = self.elevation.clone();
        WindSensorProperties { speed, gust, direction, elevation }
    }
}

impl WindSensorPropertiesView {
    /// The fields of an object after this record was written behind `before`.
    #[verifier::opaque]
    pub open spec fn fields_after(self, before: Fields) -> Fields {
        before
            + one("speed"@, self.speed.encode())
            + one("gust"@, self.gust.encode())
            + one("direction"@, self.direction.encode())
            + one("elevation"@, self.elevation.encode())
    }

    /// The fields that stand for this record.
    pub open spec fn fields(self) -> Fields {
        self.fields_after(Seq::empty())
    }

    /// The record that the fields of an object stand for, or the error of the
    /// first of its fields, in their order here, that cannot be read.
    #[verifier::opaque]
    pub open spec fn from_fields(fields: Fields) -> Result<Self, DecodeError> {
        let speed = required::<WindSensorMeasurementView>(fields, "speed");
        let gust = required::<WindSensorMeasurementView>(fields, "gust");
        let direction = required::<WindSensorMeasurementView>(fields, "direction");
        let elevation = required::<WindSensorMeasurementView>(fields, "elevation");
        if speed is Err {
            Err(speed->Err_0)
        } else if gust is Err {
            Err(gust->Err_0)
        } else if direction is Err {
            Err(direction->Err_0)
        } else if elevation is Err {
            Err(elevation->Err_0)
        } else {
            Ok(WindSensorPropertiesView {
                speed: speed->Ok_0,
                gust: gust->Ok_0,
                direction: direction->Ok_0,
                elevation: elevation->Ok_0,
            })
        }
    }

    /// What the written record holds under each of its keys: the tree of a
    /// value that is set, and nothing for one that is left out.
    pub proof fn lemma_fields(self)
        ensures
            lookup(self.fields(), "speed"@) == Some(self.speed.encode()),
            lookup(self.fields(), "gust"@) == Some(self.gust.encode()),
            lookup(self.fields(), "direction"@) == Some(self.direction.encode()),
            lookup(self.fields(), "elevation"@) == Some(self.elevation.encode()),
    {
        broadcast use group_lookup;

        reveal(WindSensorPropertiesView::fields_after);
        reveal_strlit("speed");
        reveal_strlit("gust");
        reveal_strlit("direction");
        reveal_strlit("elevation");
    }

    /// Fields that hold under each key of this record what the record writes
    /// there stand for this record.
    pub proof fn lemma_from_fields(self, fields: Fields)
        requires
            self.valid(),
            lookup(fields, "speed"@) == Some(self.speed.encode()),
            lookup(fields, "gust"@) == Some(self.gust.encode()),
            lookup(fields, "direction"@) == Some(self.direction.encode()),
            lookup(fields, "elevation"@) == Some(self.elevation.encode()),
        ensures
            Self::from_fields(fields) == Ok::<Self, DecodeError>(self),
    {
        reveal(WindSensorPropertiesView::from_fields);
        lemma_required(fields, "speed", self.speed);
        lemma_required(fields, "gust", self.gust);
        lemma_required(fields, "direction", self.direction);
        lemma_required(fields, "elevation", self.elevation);
    }
}

impl Model for WindSensorPropertiesView {
    open spec fn encode(self) -> ValueView {
        ValueView::Object(self.fields())
    }

    open spec fn decode(v: ValueView) -> Result<Self, DecodeError> {
        match v {
            ValueView::Object(fields) => Self::from_fields(fields),
            _ => Err(DecodeError::InvalidType),
        }
    }

    open spec fn valid(self) -> bool {
        &&& self.speed.valid()
        &&& self.gust.valid()
        &&& self.direction.valid()
        &&& self.elevation.valid()
    }

    proof fn lemma_round_trip(self) {
        self.lemma_fields();
        self.lemma_from_fields(self.fields());
    }
}

impl WindSensorProperties {
    /// Appends the fields that stand for this record.
    pub fn put_fields(&self, fields: &mut Vec<(String, Value)>)
        ensures
            final(fields).deep_view() == self@.fields_after(old(fields).deep_view()),
    {
        reveal(WindSensorPropertiesView::fields_after);
        put(fields, "speed", &self.speed);
        put(fields, "gust", &self.gust);
        put(fields, "direction", &self.direction);
        put(fields, "elevation", &self.elevation);
    }

    /// Reads the record that the fields of an object stand for.
    pub fn from_fields(fields: &Vec<(String, Value)>) -> (r: Result<Self, DecodeError>)
        ensures
            decoded(r, WindSensorPropertiesView::from_fields(fields.deep_view())),
    {
        reveal(WindSensorPropertiesView::from_fields);
        let speed = get::<WindSensorMeasurement>(fields, "speed")?;
        let gust = get::<WindSensorMeasurement>(fields, "gust")?;
        let direction = get::<WindSensorMeasurement>(fields, "direction")?;
        let elevation = get::<WindSensorMeasurement>(fields, "elevation")?;
        Ok(WindSensorProperties { speed, gust, direction, elevation })
    }
}

impl Codec for WindSensorProperties {
    fn to_value(&self) -> (r: Value) {
        broadcast use group_value_view;

        let mut fields: Vec<(String, Value)> = Vec::new();
        assert(fields.deep_view() =~= Seq::empty());
        self.put_fields(&mut fields);
        Value::Object(fields)
    }

    fn from_value(v: &Value) -> (r: Result<Self, DecodeError>) {
        broadcast use group_value_view;

        match v {
            Value::Object(fields) => Self::from_fields(fields),
            _ => Err(DecodeError::InvalidType),
        }
    }
}

/// The reading of a wind sensor.
#[derive(Debug, Default, PartialEq, Eq)]
pub struct WindSensor {
    pub metadata: SensorMetadataWithLocation,
    pub properties: WindSensorProperties,
}

/// The mathematical model of a [`WindSensor`].
pub struct WindSensorView {
    pub metadata: SensorMetadataWithLocationView,
    pub properties: WindSensorPropertiesView,
}

impl DeepView for WindSensor {
    type V = WindSensorView;

    open spec fn deep_view(&self) -> WindSensorView {
        WindSensorView {
            metadata: self.metadata.deep_view(),
            properties: self.properties.deep_view(),
        }
    }
}

impl View for WindSensor {
    type V = WindSensorView;

    open spec fn view(&self) -> WindSensorView {
        self.deep_view()
    }
}

impl Clone for WindSensor {
    fn clone(&self) -> (r: Self)
        ensures
            r@ == self@,
    {
        let metadata = self.metadata.clone();
        let properties = self.properties.clone();
        WindSensor { metadata, properties }
    }
}

impl WindSensorView {
    /// The fields of an object after this record was written behind `before`.
    #[verifier::opaque]
    pub open spec fn fields_after(self, before: Fields) -> Fields {
        self.metadata.fields_after(before)
            + one("properties"@, self.properties.encode())
    }

    /// The fields that stand for this record.
    pub open spec fn fields(self) -> Fields {
        self.fields_after(Seq::empty())
    }

    /// The record that the fields of an object stand for, or the error of the
    /// first of its fields, in their order here, that cannot be read.
    #[verifier::opaque]
    pub open spec fn from_fields(fields: Fields) -> Result<Self, DecodeError> {
        let metadata = SensorMetadataWithLocationView::from_fields(fields);
        let properties = required::<WindSensorPropertiesView>(fields, "properties");
        if metadata is Err {
            Err(metadata->Err_0)
        } else if properties is Err {
            Err(properties->Err_0)
        } else {
            Ok(WindSensorView {
                metadata: metadata->Ok_0,
                properties: properties->Ok_0,
            })
        }
    }

    /// What the written record holds under each of its keys: the tree of a
    /// value that is set, and nothing for one that is left out.
    pub proof fn lemma_fields(self)
        ensures
            lookup(self.fields(), "name"@) == written(self.metadata.name),
            lookup(self.fields(), "location"@) == Some(self.metadata.location.encode()),
            lookup(self.fields(), "description"@) == written(self.metadata.description),
            lookup(self.fields(), "properties"@) == Some(self.properties.encode()),
    {
        broadcast use group_lookup;

        reveal(WindSensorView::fields_after);
        reveal(SensorMetadataWithLocationView::fields_after);
        reveal_strlit("name");
        reveal_strlit("location");
        reveal_strlit("description");
        reveal_strlit("properties");
    }

    /// Fields that hold under each key of this record what the record writes
    /// there stand for this record.
    pub proof fn lemma_from_fields(self, fields: Fields)
        requires
            self.valid(),
            lookup(fields, "name"@) == written(self.metadata.name),
            lookup(fields, "location"@) == Some(self.metadata.location.encode()),
            lookup(fields, "description"@) == written(self.metadata.description),
            lookup(fields, "properties"@) == Some(self.properties.encode()),
        ensures
            Self::from_fields(fields) == Ok::<Self, DecodeError>(self),
    {
        reveal(WindSensorView::from_fields);
        self.metadata.lemma_from_fields(fields);
        lemma_required(fields, "properties", self.properties);
    }
}

impl Model for WindSensorView {
    open spec fn encode(self) -> ValueView {
        ValueView::Object(self.fields())
    }

    open spec fn decode(v: ValueView) -> Result<Self, DecodeError> {
        match v {
            ValueView::Object(fields) => Self::from_fields(fields),
            _ => Err(DecodeError::InvalidType),
        }
    }

    open spec fn valid(self) -> bool {
        &&& self.metadata.valid()
        &&& self.properties.valid()
    }

    proof fn lemma_round_trip(self) {
        self.lemma_fields();
        self.lemma_from_fields(self.fields());
    }
}

impl WindSensor {
    /// Appends the fields that stand for this record.
    pub fn put_fields(&self, fields: &mut Vec<(String, Value)>)
        ensures
            final(fields).deep_view() == self@.fields_after(old(fields).deep_view()),
    {
        reveal(WindSensorView::fields_after);
        self.metadata.put_fields(fields);
        put(fields, "properties", &self.properties);
    }

    /// Reads the record that the fields of an object stand for.
    pub fn from_fields(fields: &Vec<(String, Value)>) -> (r: Result<Self, DecodeError>)
        ensures
            decoded(r, WindSensorView::from_fields(fields.deep_view())),
    {
        reveal(WindSensorView::from_fields);
        let metadata = SensorMetadataWithLocation::from_fields(fields)?;
        let properties = get::<WindSensorProperties>(fields, "properties")?;
        Ok(WindSensor { metadata, properties })
    }
}

impl Codec for WindSensor {
    fn to_value(&self) -> (r: Value) {
        broadcast use group_value_view;

        let mut fields: Vec<(String, Value)> = Vec::new();
        assert(fields.deep_view() =~= Seq::empty());
        self.put_fields(&mut fields);
        Value::Object(fields)
    }

    fn from_value(v: &Value) -> (r: Result<Self, DecodeError>) {
        broadcast use group_value_view;

        match v {
            Value::Object(fields) => Self::from_fields(fields),
            _ => Err(DecodeError::InvalidType),
        }
    }
}

} // verus!
