//! Presence sensors.

use crate::codec::{
    decoded, get, get_some, group_lookup, lemma_optional, lemma_required, lookup, maybe, one,
    optional, put, put_some, required, written, Codec, DecodeError, Fields, Model,
};
use crate::sensors::{
    registered, FromSensorTemplate, SensorMetadata, SensorMetadataView, SensorTemplate,
    SensorTemplateError, Sensors, SensorsView,
};
use crate::text::{parse_u64, whole_number};
use crate::value::{group_value_view, Value, ValueView};
use vstd::prelude::*;

verus! {

/// How many people are at a space.
#[derive(Debug, Default, PartialEq, Eq)]
pub struct PeopleNowPresentSensor {
    pub metadata: SensorMetadata,
    pub names: Option<Vec<String>>,
    pub value: u64,
}

/// The mathematical model of a [`PeopleNowPresentSensor`].
pub struct PeopleNowPresentSensorView {
    pub metadata: SensorMetadataView,
    pub names: Option<Seq<Seq<char>>>,
    pub value: u64,
}

impl DeepView for PeopleNowPresentSensor {
    type V = PeopleNowPresentSensorView;

    open spec fn deep_view(&self) -> PeopleNowPresentSensorView {
        PeopleNowPresentSensorView {
            metadata: self.metadata.deep_view(),
            names: self.names.deep_view(),
            value: self.value.deep_view(),
        }
    }
}

impl View for PeopleNowPresentSensor {
    type V = PeopleNowPresentSensorView;

    open spec fn view(&self) -> PeopleNowPresentSensorView {
        self.deep_view()
    }
}

impl Clone for PeopleNowPresentSensor {
    fn clone(&self) -> (r: Self)
        ensures
            r@ == self@,
    {
        let metadata = self.metadata.clone();
        let names = self.names.clone();
        let value = self.value.clone();
        PeopleNowPresentSensor { metadata, names, value }
    }
}

impl PeopleNowPresentSensorView {
    /// The fields of an object after this record was written behind `before`.
    #[verifier::opaque]
    pub open spec fn fields_after(self, before: Fields) -> Fields {
        self.metadata.fields_after(before)
            + maybe("names"@, self.names)
            + one("value"@, self.value.encode())
    }

    /// The fields that stand for this record.
    pub open spec fn fields(self) -> Fields {
        self.fields_after(Seq::empty())
    }

    /// The record that the fields of an object stand for, or the error of the
    /// first of its fields, in their order here, that cannot be read.
    #[verifier::opaque]
    pub open spec fn from_fields(fields: Fields) -> Result<Self, DecodeError> {
        let metadata = SensorMetadataView::from_fields(fields);
        let names = optional::<Seq<Seq<char>>>(fields, "names");
        let value = required::<u64>(fields, "value");
        if metadata is Err {
            Err(metadata->Err_0)
        } else if names is Err {
            Err(names->Err_0)
        } else if value is Err {
            Err(value->Err_0)
        } else {
            Ok(PeopleNowPresentSensorView {
                metadata: metadata->Ok_0,
                names: names->Ok_0,
                value: value->Ok_0,
            })
        }
    }

    /// What the written record holds under each of its keys: the tree of a
    /// value that is set, and nothing for one that is left out.
    pub proof fn lemma_fields(self)
        ensures
            lookup(self.fields(), "name"@) == written(self.metadata.name),
            lookup(self.fields(), "location"@) == written(self.metadata.location),
            lookup(self.fields(), "description"@) == written(self.metadata.description),
            lookup(self.fields(), "names"@) == written(self.names),
            lookup(self.fields(), "value"@) == Some(self.value.encode()),
    {
        broadcast use group_lookup;

        reveal(PeopleNowPresentSensorView::fields_after);
        reveal(SensorMetadataView::fields_after);
        reveal_strlit("name");
        reveal_strlit("location");
        reveal_strlit("description");
        reveal_strlit("names");
        reveal_strlit("value");
    }

    /// Fields that hold under each key of this record what the record writes
    /// there stand for this record.
    pub proof fn lemma_from_fields(self, fields: Fields)
        requires
            self.valid(),
            lookup(fields, "name"@) == written(self.metadata.name),
            lookup(fields, "location"@) == written(self.metadata.location),
            lookup(fields, "description"@) == written(self.metadata.description),
            lookup(fields, "names"@) == written(self.names),
            lookup(fields, "value"@) == Some(self.value.encode()),
        ensures
            Self::from_fields(fields) == Ok::<Self, DecodeError>(self),
    {
        reveal(PeopleNowPresentSensorView::from_fields);
        self.metadata.lemma_from_fields(fields);
        lemma_optional(fields, "names", self.names);
        lemma_required(fields, "value", self.value);
    }
}

impl Model for PeopleNowPresentSensorView {
    open spec fn encode(self) -> ValueView {
        ValueView::Object(self.fields())
    }

    open spec fn decode(v: ValueView) -> Result<Self, DecodeError> {
        match v {
            ValueView::Object(fields) => Self::from_fields(fields),
            _ => Err(DecodeError::InvalidType),
        }
    }

    open spec fn valid(self) -> bool {
        &&& self.metadata.valid()
        &&& self.names matches Some(x) ==> x.valid()
    }

    proof fn lemma_round_trip(self) {
        self.lemma_fields();
        self.lemma_from_fields(self.fields());
    }
}

impl PeopleNowPresentSensor {
    /// Appends the fields that stand for this record.
    pub fn put_fields(&self, fields: &mut Vec<(String, Value)>)
        ensures
            final(fields).deep_view() == self@.fields_after(old(fields).deep_view()),
    {
        reveal(PeopleNowPresentSensorView::fields_after);
        self.metadata.put_fields(fields);
        put_some(fields, "names", &self.names);
        put(fields, "value", &self.value);
    }

    /// Reads the record that the fields of an object stand for.
    pub fn from_fields(fields: &Vec<(String, Value)>) -> (r: Result<Self, DecodeError>)
        ensures
            decoded(r, PeopleNowPresentSensorView::from_fields(fields.deep_view())),
    {
        reveal(PeopleNowPresentSensorView::from_fields);
        let metadata = SensorMetadata::from_fields(fields)?;
        let names = get_some::<Vec<String>>(fields, "names")?;
        let value = get::<u64>(fields, "value")?;
        Ok(PeopleNowPresentSensor { metadata, names, value })
    }
}

impl Codec for PeopleNowPresentSensor {
    fn to_value(&self) -> (r: Value) {
        broadcast use group_value_view;

        let mut fields: Vec<(String, Value)> = Vec::new();
        assert(fields.deep_view() =~= Seq::empty());
        self.put_fields(&mut fields);
        Value::Object(fields)
    }

    fn from_value(v: &Value) -> (r: Result<Self, DecodeError>) {
        broadcast use group_value_view;

        match v {
            Value::Object(fields) => Self::from_fields(fields),
            _ => Err(DecodeError::InvalidType),
        }
    }
}

/// A presence sensor without its reading.
#[derive(Debug)]
pub struct PeopleNowPresentSensorTemplate {
    pub metadata: SensorMetadata,
    /// Not handed on to the sensor.
    pub names: Option<Vec<String>>,
}

/// The mathematical model of a [`PeopleNowPresentSensorTemplate`].
pub struct PeopleNowPresentSensorTemplateView {
    pub metadata: SensorMetadataView,
    pub names: Option<Seq<Seq<char>>>,
}

impl DeepView for PeopleNowPresentSensorTemplate {
    type V = PeopleNowPresentSensorTemplateView;

    open spec fn deep_view(&self) -> PeopleNowPresentSensorTemplateView {
        PeopleNowPresentSensorTemplateView {
            metadata: self.metadata.deep_view(),
            names: self.names.deep_view(),
        }
    }
}

impl View for PeopleNowPresentSensorTemplate {
    type V = PeopleNowPresentSensorTemplateView;

    open spec fn view(&self) -> PeopleNowPresentSensorTemplateView {
        self.deep_view()
    }
}

impl Clone for PeopleNowPresentSensorTemplate {
    fn clone(&self) -> (r: Self)
        ensures
            r@ == self@,
    {
        let metadata = self.metadata.clone();
        let names = self.names.clone();
        PeopleNowPresentSensorTemplate { metadata, names }
    }
}

impl FromSensorTemplate<PeopleNowPresentSensorTemplate> for PeopleNowPresentSensor {
    /// The template's fields and the value that the text stands for. A text
    /// that stands for none makes no sensor.
    open spec fn from_reading(
        template: PeopleNowPresentSensorTemplateView,
        value: Seq<char>,
    ) -> Result<Self::V, SensorTemplateError> {
        match whole_number(value) {
            Some(value) => Ok(
                PeopleNowPresentSensorView { metadata: template.metadata, names: None, value },
            ),
            None => Err(SensorTemplateError::BadInteger),
        }
    }

    fn try_from_template(
        template: &PeopleNowPresentSensorTemplate,
        value: &str,
    ) -> (r: Result<Self, SensorTemplateError>) {
        match parse_u64(value) {
            Some(value) => Ok(
                PeopleNowPresentSensor { metadata: template.metadata.clone(), names: None, value },
            ),
            None => Err(SensorTemplateError::BadInteger),
        }
    }
}

impl SensorTemplate for PeopleNowPresentSensorTemplate {
    /// The sensors with one more of this kind.
    open spec fn registered(
        template: Self::V,
        value: Seq<char>,
        sensors: SensorsView,
    ) -> Result<SensorsView, SensorTemplateError> {
        match PeopleNowPresentSensor::from_reading(template, value) {
            Ok(sensor) => Ok(
                SensorsView {
                    people_now_present: sensors.people_now_present.push(sensor),
                    ..sensors
                },
            ),
            Err(e) => Err(e),
        }
    }

    fn try_to_sensor(
        &self,
        value_str: &str,
        sensors: &mut Sensors,
    ) -> (r: Result<(), SensorTemplateError>) {
        let sensor = PeopleNowPresentSensor::try_from_template(self, value_str)?;
        let ghost before = sensors.people_now_present.deep_view();
        sensors.people_now_present.push(sensor);
        assert(sensors.people_now_present.deep_view() =~= before.push(sensor@));
        Ok(())
    }
}

impl From<PeopleNowPresentSensorTemplate> for PeopleNowPresentSensor {
    /// The sensor of a template before anyone was counted.
    fn from(template: PeopleNowPresentSensorTemplate) -> (r: PeopleNowPresentSensor) {
        PeopleNowPresentSensor { metadata: template.metadata, names: None, value: 0 }
    }
}

impl vstd::std_specs::convert::FromSpecImpl<PeopleNowPresentSensorTemplate> for PeopleNowPresentSensor {
    open spec fn obeys_from_spec() -> bool {
        true
    }

    open spec fn from_spec(template: PeopleNowPresentSensorTemplate) -> PeopleNowPresentSensor {
        PeopleNowPresentSensor { metadata: template.metadata, names: None, value: 0 }
    }
}

} // verus!
