//! Beverage supply sensors.

use crate::codec::{
    decoded, get, group_lookup, lemma_required, lookup, one, put, required, written, Codec,
    DecodeError, Fields, Model,
};
use crate::sensors::{
    registered, FromSensorTemplate, SensorMetadata, SensorMetadataView, SensorTemplate,
    SensorTemplateError, Sensors, SensorsView,
};
use crate::text::{parse_u64, whole_number};
use crate::value::{group_value_view, Value, ValueView};
use vstd::prelude::*;

verus! {

/// How much of a beverage is left.
#[derive(Debug, Default, PartialEq, Eq)]
pub struct BeverageSupplySensor {
    pub metadata: SensorMetadata,
    pub unit: String,
    pub value: u64,
}

/// The mathematical model of a [`BeverageSupplySensor`].
pub struct BeverageSupplySensorView {
    pub metadata: SensorMetadataView,
    pub unit: Seq<char>,
    pub value: u64,
}

impl DeepView for BeverageSupplySensor {
    type V = BeverageSupplySensorView;

    open spec fn deep_view(&self) -> BeverageSupplySensorView {
        BeverageSupplySensorView {
            metadata: self.metadata.deep_view(),
            unit: self.unit.deep_view(),
            value: self.value.deep_view(),
        }
    }
}

impl View for BeverageSupplySensor {
    type V = BeverageSupplySensorView;

    open spec fn view(&self) -> BeverageSupplySensorView {
        self.deep_view()
    }
}

impl Clone for BeverageSupplySensor {
    fn clone(&self) -> (r: Self)
        ensures
            r@ == self@,
    {
        let metadata = self.metadata.clone();
        let unit = self.unit.clone();
        let value = self.value.clone();
        BeverageSupplySensor { metadata, unit, value }
    }
}

impl BeverageSupplySensorView {
    /// The fields of an object after this record was written behind `before`.
    #[verifier::opaque]
    pub open spec fn fields_after(self, before: Fields) -> Fields {
        self.metadata.fields_after(before)
            + one("unit"@, self.unit.encode())
            + one("value"@, self.value.encode())
    }

    /// The fields that stand for this record.
    pub open spec fn fields(self) -> Fields {
        self.fields_after(Seq::empty())
    }

    /// The record that the fields of an object stand for, or the error of the
    /// first of its fields, in their order here, that cannot be read.
    #[verifier::opaque]
    pub open spec fn from_fields(fields: Fields) -> Result<Self, DecodeError> {
        let metadata = SensorMetadataView::from_fields(fields);
        let unit = required::<Seq<char>>(fields, "unit");
        let value = required::<u64>(fields, "value");
        if metadata is Err {
            Err(metadata->Err_0)
        } else if unit is Err {
            Err(unit->Err_0)
        } else if value is Err {
            Err(value->Err_0)
        } else {
            Ok(BeverageSupplySensorView {
                metadata: metadata->Ok_0,
                unit: unit->Ok_0,
                value: value->Ok_0,
            })
        }
    }

    /// What the written record holds under each of its keys: the tree of a
    /// value that is set, and nothing for one that is left out.
    pub proof fn lemma_fields(self)
        ensures
            lookup(self.fields(), "name"@) == written(self.metadata.name),
            lookup(self.fields(), "location"@) == written(self.metadata.location),
            lookup(self.fields(), "description"@) == written(self.metadata.description),
            lookup(self.fields(), "unit"@) == Some(self.unit.encode()),
            lookup(self.fields(), "value"@) == Some(self.value.encode()),
    {
        broadcast use group_lookup;

        reveal(BeverageSupplySensorView::fields_after);
        reveal(SensorMetadataView::fields_after);
        reveal_strlit("name");
        reveal_strlit("location");
        reveal_strlit("description");
        reveal_strlit("unit");
        reveal_strlit("value");
    }

    /// Fields that hold under each key of this record what the record writes
    /// there stand for this record.
    pub proof fn lemma_from_fields(self, fields: Fields)
        requires
            self.valid(),
            lookup(fields, "name"@) == written(self.metadata.name),
            lookup(fields, "location"@) == written(self.metadata.location),
            lookup(fields, "description"@) == written(self.metadata.description),
            lookup(fields, "unit"@) == Some(self.unit.encode()),
            lookup(fields, "value"@) == Some(self.value.encode()),
        ensures
            Self::from_fields(fields) == Ok::<Self, DecodeError>(self),
    {
        reveal(BeverageSupplySensorView::from_fields);
        self.metadata.lemma_from_fields(fields);
        lemma_required(fields, "unit", self.unit);
        lemma_required(fields, "value", self.value);
    }
}

impl Model for BeverageSupplySensorView {
    open spec fn encode(self) -> ValueView {
        ValueView::Object(self.fields())
    }

    open spec fn decode(v: ValueView) -> Result<Self, DecodeError> {
        match v {
            ValueView::Object(fields) => Self::from_fields(fields),
            _ => Err(DecodeError::InvalidType),
        }
    }

    open spec fn valid(self) -> bool {
        &&& self.metadata.valid()
    }

    proof fn lemma_round_trip(self) {
        self.lemma_fields();
        self.lemma_from_fields(self.fields());
    }
}

impl BeverageSupplySensor {
    /// Appends the fields that stand for this record.
    pub fn put_fields(&self, fields: &mut Vec<(String, Value)>)
        ensures
            final(fields).deep_view() == self@.fields_after(old(fields).deep_view()),
    {
        reveal(BeverageSupplySensorView::fields_after);
        self.metadata.put_fields(fields);
        put(fields, "unit", &self.unit);
        put(fields, "value", &self.value);
    }

    /// Reads the record that the fields of an object stand for.
    pub fn from_fields(fields: &Vec<(String, Value)>) -> (r: Result<Self, DecodeError>)
        ensures
            decoded(r, BeverageSupplySensorView::from_fields(fields.deep_view())),
    {
        reveal(BeverageSupplySensorView::from_fields);
        let metadata = SensorMetadata::from_fields(fields)?;
        let unit = get::<String>(fields, "unit")?;
        let value = get::<u64>(fields, "value")?;
        Ok(BeverageSupplySensor { metadata, unit, value })
    }
}

impl Codec for BeverageSupplySensor {
    fn to_value(&self) -> (r: Value) {
        broadcast use group_value_view;

        let mut fields: Vec<(String, Value)> = Vec::new();
        assert(fields.deep_view() =~= Seq::empty());
        self.put_fields(&mut fields);
        Value::Object(fields)
    }

    fn from_value(v: &Value) -> (r: Result<Self, DecodeError>) {
        broadcast use group_value_view;

        match v {
            Value::Object(fields) => Self::from_fields(fields),
            _ => Err(DecodeError::InvalidType),
        }
    }
}

/// A beverage supply sensor without its reading.
#[derive(Debug)]
pub struct BeverageSupplySensorTemplate {
    pub metadata: SensorMetadata,
    pub unit: String,
}

/// The mathematical model of a [`BeverageSupplySensorTemplate`].
pub struct BeverageSupplySensorTemplateView {
    pub metadata: SensorMetadataView,
    pub unit: Seq<char>,
}

impl DeepView for BeverageSupplySensorTemplate {
    type V = BeverageSupplySensorTemplateView;

    open spec fn deep_view(&self) -> BeverageSupplySensorTemplateView {
        BeverageSupplySensorTemplateView {
            metadata: self.metadata.deep_view(),
            unit: self.unit.deep_view(),
        }
    }
}

impl View for BeverageSupplySensorTemplate {
    type V = BeverageSupplySensorTemplateView;

    open spec fn view(&self) -> BeverageSupplySensorTemplateView {
        self.deep_view()
    }
}

impl Clone for BeverageSupplySensorTemplate {
    fn clone(&self) -> (r: Self)
        ensures
            r@ == self@,
    {
        let metadata = self.metadata.clone();
        let unit = self.unit.clone();
        BeverageSupplySensorTemplate { metadata, unit }
    }
}

impl FromSensorTemplate<BeverageSupplySensorTemplate> for BeverageSupplySensor {
    /// The template's fields and the value that the text stands for. A text
    /// that stands for none makes no sensor.
    open spec fn from_reading(
        template: BeverageSupplySensorTemplateView,
        value: Seq<char>,
    ) -> Result<Self::V, SensorTemplateError> {
        match whole_number(value) {
            Some(value) => Ok(
                BeverageSupplySensorView {
                    metadata: template.metadata,
                    unit: template.unit,
                    value,
                },
            ),
            None => Err(SensorTemplateError::BadInteger),
        }
    }

    fn try_from_template(
        template: &BeverageSupplySensorTemplate,
        value: &str,
    ) -> (r: Result<Self, SensorTemplateError>) {
        match parse_u64(value) {
            Some(value) => Ok(
                BeverageSupplySensor {
                    metadata: template.metadata.clone(),
                    unit: template.unit.clone(),
                    value,
                },
            ),
            None => Err(SensorTemplateError::BadInteger),
        }
    }
}

impl SensorTemplate for BeverageSupplySensorTemplate {
    /// The sensors with one more of this kind.
    open spec fn registered(
        template: Self::V,
        value: Seq<char>,
        sensors: SensorsView,
    ) -> Result<SensorsView, SensorTemplateError> {
        match BeverageSupplySensor::from_reading(template, value) {
            Ok(sensor) => Ok(
                SensorsView { beverage_supply: sensors.beverage_supply.push(sensor), ..sensors },
            ),
            Err(e) => Err(e),
        }
    }

    fn try_to_sensor(
        &self,
        value_str: &str,
        sensors: &mut Sensors,
    ) -> (r: Result<(), SensorTemplateError>) {
        let sensor = BeverageSupplySensor::try_from_template(self, value_str)?;
        let ghost before = sensors.beverage_supply.deep_view();
        sensors.beverage_supply.push(sensor);
        assert(sensors.beverage_supply.deep_view() =~= before.push(sensor@));
        Ok(())
    }
}

} // verus!
