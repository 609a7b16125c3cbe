//! Radiation sensors.

use crate::codec::{
    decoded, get, get_some, group_lookup, lemma_literal, lemma_optional, lemma_required, lookup,
    maybe, one, optional, put, put_some, required, written, Codec, DecodeError, Fields, Model,
};
use crate::number::Double;
use crate::sensors::{SensorMetadata, SensorMetadataView};
use crate::text::str_eq;
use crate::value::{group_value_view, Value, ValueView};
use vstd::prelude::*;

verus! {

/// The unit of a radiation reading.
#[derive(Debug, Clone, Copy, PartialEq, Eq, Structural)]
pub enum RadiationSensorUnit {
    CountsPerMinute,
    RadsPerHour,
    MicroSievertsPerHour,
    MicroSievertsPerYear,
    /// Written as `mSv/h`.
    MilliSievertsPerYear,
}

impl DeepView for RadiationSensorUnit {
    type V = RadiationSensorUnit;

    open spec fn deep_view(&self) -> RadiationSensorUnit {
        *self
    }
}

impl View for RadiationSensorUnit {
    type V = RadiationSensorUnit;

    open spec fn view(&self) -> RadiationSensorUnit {
        *self
    }
}

impl RadiationSensorUnit {
    /// The name under which the variant stands in a document.
    pub open spec fn name(self) -> Seq<char> {
        match self {
            RadiationSensorUnit::CountsPerMinute => "cpm"@,
            RadiationSensorUnit::RadsPerHour => "r/h"@,
            RadiationSensorUnit::MicroSievertsPerHour => "µSv/h"@,
            RadiationSensorUnit::MicroSievertsPerYear => "µSv/a"@,
            RadiationSensorUnit::MilliSievertsPerYear => "mSv/h"@,
        }
    }

    /// The variant that stands in a document under the name `s`.
    pub open spec fn named(s: Seq<char>) -> Option<RadiationSensorUnit> {
        if s == "cpm"@ {
            Some(RadiationSensorUnit::CountsPerMinute)
        } else if s == "r/h"@ {
            Some(RadiationSensorUnit::RadsPerHour)
        } else if s == "µSv/h"@ {
            Some(RadiationSensorUnit::MicroSievertsPerHour)
        } else if s == "µSv/a"@ {
            Some(RadiationSensorUnit::MicroSievertsPerYear)
        } else if s == "mSv/h"@ {
            Some(RadiationSensorUnit::MilliSievertsPerYear)
        } else {
            None
        }
    }

    /// The name under which the variant stands in a document.
    pub fn as_str(&self) -> (r: &'static str)
        ensures
            r@ == self.name(),
    {
        match self {
            RadiationSensorUnit::CountsPerMinute => "cpm",
            RadiationSensorUnit::RadsPerHour => "r/h",
            RadiationSensorUnit::MicroSievertsPerHour => "µSv/h",
            RadiationSensorUnit::MicroSievertsPerYear => "µSv/a",
            RadiationSensorUnit::MilliSievertsPerYear => "mSv/h",
        }
    }

    /// The variant that stands in a document under the name `s`.
    pub fn from_name(s: &str) -> (r: Option<RadiationSensorUnit>)
        ensures
            r == RadiationSensorUnit::named(s@),
    {
        if str_eq(s, "cpm") {
            Some(RadiationSensorUnit::CountsPerMinute)
        } else if str_eq(s, "r/h") {
            Some(RadiationSensorUnit::RadsPerHour)
        } else if str_eq(s, "µSv/h") {
            Some(RadiationSensorUnit::MicroSievertsPerHour)
        } else if str_eq(s, "µSv/a") {
            Some(RadiationSensorUnit::MicroSievertsPerYear)
        } else if str_eq(s, "mSv/h") {
            Some(RadiationSensorUnit::MilliSievertsPerYear)
        } else {
            None
        }
    }
}

impl Model for RadiationSensorUnit {
    open spec fn encode(self) -> ValueView {
        ValueView::String(self.name())
    }

    open spec fn decode(v: ValueView) -> Result<Self, DecodeError> {
        match v {
            ValueView::String(s) => match RadiationSensorUnit::named(s) {
                Some(x) => Ok(x),
                None => Err(DecodeError::UnknownVariant),
            },
            _ => Err(DecodeError::InvalidType),
        }
    }

    open spec fn valid(self) -> bool {
        true
    }

    proof fn lemma_round_trip(self) {
        broadcast use lemma_literal;

        reveal_strlit("cpm");
        reveal_strlit("r/h");
        reveal_strlit("µSv/h");
        reveal_strlit("µSv/a");
        reveal_strlit("mSv/h");
    }
}

impl Codec for RadiationSensorUnit {
    fn to_value(&self) -> (r: Value) {
        Value::String(self.as_str().to_owned())
    }

    fn from_value(v: &Value) -> (r: Result<Self, DecodeError>) {
        match v {
            Value::String(s) => match RadiationSensorUnit::from_name(s.as_str()) {
                Some(x) => Ok(x),
                None => Err(DecodeError::UnknownVariant),
            },
            _ => Err(DecodeError::InvalidType),
        }
    }
}

/// The reading of a radiation sensor.
#[derive(Debug, PartialEq, Eq)]
pub struct RadiationSensor {
    pub metadata: SensorMetadata,
    pub dead_time: Option<Double>,
    pub conversion_factor: Option<Double>,
    pub unit: RadiationSensorUnit,
    pub value: Double,
}

/// The mathematical model of a [`RadiationSensor`].
pub struct RadiationSensorView {
    pub metadata: SensorMetadataView,
    pub dead_time: Option<Double>,
    pub conversion_factor: Option<Double>,
    pub unit: RadiationSensorUnit,
    pub value: Double,
}

impl DeepView for RadiationSensor {
    type V = RadiationSensorView;

    open spec fn deep_view(&self) -> RadiationSensorView {
        RadiationSensorView {
            metadata: self.metadata.deep_view(),
            dead_time: self.dead_time.deep_view(),
            conversion_factor: self.conversion_factor.deep_view(),
            unit: self.unit.deep_view(),
            value: self.value.deep_view(),
        }
    }
}

impl View for RadiationSensor {
    type V = RadiationSensorView;

    open spec fn view(&self) -> RadiationSensorView {
        self.deep_view()
    }
}

impl Clone for RadiationSensor {
    fn clone(&self) -> (r: Self)
        ensures
            r@ == self@,
    {
        let metadata = self.metadata.clone();
        let dead_time = self.dead_time.clone();
        let conversion_factor = self.conversion_factor.clone();
        let unit = self.unit.clone();
        let value = self.value.clone();
        RadiationSensor { metadata, dead_time, conversion_factor, unit, value }
    }
}

impl RadiationSensorView {
    /// The fields of an object after this record was written behind `before`.
    #[verifier::opaque]
    pub open spec fn fields_after(self, before: Fields) -> Fields {
        self.metadata.fields_after(before)
            + maybe("dead_time"@, self.dead_time)
            + maybe("conversion_factor"@, self.conversion_factor)
            + one("unit"@, self.unit.encode())
            + one("value"@, self.value.encode())
    }

    /// The fields that stand for this record.
    pub open spec fn fields(self) -> Fields {
        self.fields_after(Seq::empty())
    }

    /// The record that the fields of an object stand for, or the error of the
    /// first of its fields, in their order here, that cannot be read.
    #[verifier::opaque]
    pub open spec fn from_fields(fields: Fields) -> Result<Self, DecodeError> {
        let metadata = SensorMetadataView::from_fields(fields);
        let dead_time = optional::<Double>(fields, "dead_time");
        let conversion_factor = optional::<Double>(fields, "conversion_factor");
        let unit = required::<RadiationSensorUnit>(fields, "unit");
        let value = required::<Double>(fields, "value");
        if metadata is Err {
            Err(metadata->Err_0)
        } else if dead_time is Err {
            Err(dead_time->Err_0)
        } else if conversion_factor is Err {
            Err(conversion_factor->Err_0)
        } else if unit is Err {
            Err(unit->Err_0)
        } else if value is Err {
            Err(value->Err_0)
        } else {
            Ok(RadiationSensorView {
                metadata: metadata->Ok_0,
                dead_time: dead_time->Ok_0,
                conversion_factor: conversion_factor->Ok_0,
                unit: unit->Ok_0,
                value: value->Ok_0,
            })
        }
    }

    /// What the written record holds under each of its keys: the tree of a
    /// value that is set, and nothing for one that is left out.
    pub proof fn lemma_fields(self)
        ensures
            lookup(self.fields(), "name"@) == written(self.metadata.name),
            lookup(self.fields(), "location"@) == written(self.metadata.location),
            lookup(self.fields(), "description"@) == written(self.metadata.description),
            lookup(self.fields(), "dead_time"@) == written(self.dead_time),
            lookup(self.fields(), "conversion_factor"@) == written(self.conversion_factor),
            lookup(self.fields(), "unit"@) == Some(self.unit.encode()),
            lookup(self.fields(), "value"@) == Some(self.value.encode()),
    {
        broadcast use group_lookup;

        reveal(RadiationSensorView::fields_after);
        reveal(SensorMetadataView::fields_after);
        reveal_strlit("name");
        reveal_strlit("location");
        reveal_strlit("description");
        reveal_strlit("dead_time");
        reveal_strlit("conversion_factor");
        reveal_strlit("unit");
        reveal_strlit("value");
    }

    /// Fields that hold under each key of this record what the record writes
    /// there stand for this record.
    pub proof fn lemma_from_fields(self, fields: Fields)
        requires
            self.valid(),
            lookup(fields, "name"@) == written(self.metadata.name),
            lookup(fields, "location"@) == written(self.metadata.location),
            lookup(fields, "description"@) == written(self.metadata.description),
            lookup(fields, "dead_time"@) == written(self.dead_time),
            lookup(fields, "conversion_factor"@) == written(self.conversion_factor),
            lookup(fields, "unit"@) == Some(self.unit.encode()),
            lookup(fields, "value"@) == Some(self.value.encode()),
        ensures
            Self::from_fields(fields) == Ok::<Self, DecodeError>(self),
    {
        reveal(RadiationSensorView::from_fields);
        self.metadata.lemma_from_fields(fields);
        lemma_optional(fields, "dead_time", self.dead_time);
        lemma_optional(fields, "conversion_factor", self.conversion_factor);
        lemma_required(fields, "unit", self.unit);
        lemma_required(fields, "value", self.value);
    }
}

impl Model for RadiationSensorView {
    open spec fn encode(self) -> ValueView {
        ValueView::Object(self.fields())
    }

    open spec fn decode(v: ValueView) -> Result<Self, DecodeError> {
        match v {
            ValueView::Object(fields) => Self::from_fields(fields),
            _ => Err(DecodeError::InvalidType),
        }
    }

    open spec fn valid(self) -> bool {
        &&& self.metadata.valid()
        &&& self.dead_time matches Some(x) ==> x.valid()
        &&& self.conversion_factor matches Some(x) ==> x.valid()
        &&& self.value.valid()
    }

    proof fn lemma_round_trip(self) {
        self.lemma_fields();
        self.lemma_from_fields(self.fields());
    }
}

impl RadiationSensor {
    /// Appends the fields that stand for this record.
    pub fn put_fields(&self, fields: &mut Vec<(String, Value)>)
        ensures
            final(fields).deep_view() == self@.fields_after(old(fields).deep_view()),
    {
        reveal(RadiationSensorView::fields_after);
        self.metadata.put_fields(fields);
        put_some(fields, "dead_time", &self.dead_time);
        put_some(fields, "conversion_factor", &self.conversion_factor);
        put(fields, "unit", &self.unit);
        put(fields, "value", &self.value);
    }

    /// Reads the record that the fields of an object stand for.
    pub fn from_fields(fields: &Vec<(String, Value)>) -> (r: Result<Self, DecodeError>)
        ensures
            decoded(r, RadiationSensorView::from_fields(fields.deep_view())),
    {
        reveal(RadiationSensorView::from_fields);
        let metadata = SensorMetadata::from_fields(fields)?;
        let dead_time = get_some::<Double>(fields, "dead_time")?;
        let conversion_factor = get_some::<Double>(fields, "conversion_factor")?;
        let unit = get::<RadiationSensorUnit>(fields, "unit")?;
        let value = get::<Double>(fields, "value")?;
        Ok(RadiationSensor { metadata, dead_time, conversion_factor, unit, value })
    }
}

impl Codec for RadiationSensor {
    fn to_value(&self) -> (r: Value) {
        broadcast use group_value_view;

        let mut fields: Vec<(String, Value)> = Vec::new();
        assert(fields.deep_view() =~= Seq::empty());
        self.put_fields(&mut fields);
        Value::Object(fields)
    }

    fn from_value(v: &Value) -> (r: Result<Self, DecodeError>) {
        broadcast use group_value_view;

        match v {
            Value::Object(fields) => Self::from_fields(fields),
            _ => Err(DecodeError::InvalidType),
        }
    }
}

/// The radiation sensors of a space, by the kind of radiation.
#[derive(Debug, Default, PartialEq, Eq)]
pub struct RadiationSensors {
    pub alpha: Option<Vec<RadiationSensor>>,
    pub beta: Option<Vec<RadiationSensor>>,
    pub gamma: Option<Vec<RadiationSensor>>,
    pub beta_gamma: Option<Vec<RadiationSensor>>,
}

/// The mathematical model of a [`RadiationSensors`].
pub struct RadiationSensorsView {
    pub alpha: Option<Seq<RadiationSensorView>>,
    pub beta: Option<Seq<RadiationSensorView>>,
    pub gamma: Option<Seq<RadiationSensorView>>,
    pub beta_gamma: Option<Seq<RadiationSensorView>>,
}

impl DeepView for RadiationSensors {
    type V = RadiationSensorsView;

    open spec fn deep_view(&self) -> RadiationSensorsView {
        RadiationSensorsView {
            alpha: self.alpha.deep_view(),
            beta: self.beta.deep_view(),
            gamma: self.gamma.deep_view(),
            beta_gamma: self.beta_gamma.deep_view(),
        }
    }
}

impl View for RadiationSensors {
    type V = RadiationSensorsView;

    open spec fn view(&self) -> RadiationSensorsView {
        self.deep_view()
    }
}

impl Clone for RadiationSensors {
    fn clone(&self) -> (r: Self)
        ensures
            r@ == self@,
    {
        let alpha = self.alpha.clone();
        let beta = self.beta.clone();
        let gamma = self.gamma.clone();
        let beta_gamma = self.beta_gamma.clone();
        RadiationSensors { alpha, beta, gamma, beta_gamma }
    }
}

impl RadiationSensorsView {
    /// The fields of an object after this record was written behind `before`.
    #[verifier::opaque]
    pub open spec fn fields_after(self, before: Fields) -> Fields {
        before
            + maybe("alpha"@, self.alpha)
            + maybe("beta"@, self.beta)
            + maybe("gamma"@, self.gamma)
            + maybe("beta_gamma"@, self.beta_gamma)
    }

    /// The fields that stand for this record.
    pub open spec fn fields(self) -> Fields {
        self.fields_after(Seq::empty())
    }

    /// The record that the fields of an object stand for, or the error of the
    /// first of its fields, in their order here, that cannot be read.
    #[verifier::opaque]
    pub open spec fn from_fields(fields: Fields) -> Result<Self, DecodeError> {
        let alpha = optional::<Seq<RadiationSensorView>>(fields, "alpha");
        let beta = optional::<Seq<RadiationSensorView>>(fields, "beta");
        let gamma = optional::<Seq<RadiationSensorView>>(fields, "gamma");
        let beta_gamma = optional::<Seq<RadiationSensorView>>(fields, "beta_gamma");
        if alpha is Err {
            Err(alpha->Err_0)
        } else if beta is Err {
            Err(beta->Err_0)
        } else if gamma is Err {
            Err(gamma->Err_0)
        } else if beta_gamma is Err {
            Err(beta_gamma->Err_0)
        } else {
            Ok(RadiationSensorsView {
                alpha: alpha->Ok_0,
                beta: beta->Ok_0,
                gamma: gamma->Ok_0,
                beta_gamma: beta_gamma->Ok_0,
            })
        }
    }

    /// What the written record holds under each of its keys: the tree of a
    /// value that is set, and nothing for one that is left out.
    pub proof fn lemma_fields(self)
        ensures
            lookup(self.fields(), "alpha"@) == written(self.alpha),
            lookup(self.fields(), "beta"@) == written(self.beta),
            lookup(self.fields(), "gamma"@) == written(self.gamma),
            lookup(self.fields(), "beta_gamma"@) == written(self.beta_gamma),
    {
        broadcast use group_lookup;

        reveal(RadiationSensorsView::fields_after);
        reveal_strlit("alpha");
        reveal_strlit("beta");
        reveal_strlit("gamma");
        reveal_strlit("beta_gamma");
    }

    /// Fields that hold under each key of this record what the record writes
    /// there stand for this record.
    pub proof fn lemma_from_fields(self, fields: Fields)
        requires
            self.valid(),
            lookup(fields, "alpha"@) == written(self.alpha),
            lookup(fields, "beta"@) == written(self.beta),
            lookup(fields, "gamma"@) == written(self.gamma),
            lookup(fields, "beta_gamma"@) == written(self.beta_gamma),
        ensures
            Self::from_fields(fields) == Ok::<Self, DecodeError>(self),
    {
        reveal(RadiationSensorsView::from_fields);
        lemma_optional(fields, "alpha", self.alpha);
        lemma_optional(fields, "beta", self.beta);
        lemma_optional(fields, "gamma", self.gamma);
        lemma_optional(fields, "beta_gamma", self.beta_gamma);
    }
}

impl Model for RadiationSensorsView {
    open spec fn encode(self) -> ValueView {
        ValueView::Object(self.fields())
    }

    open spec fn decode(v: ValueView) -> Result<Self, DecodeError> {
        match v {
            ValueView::Object(fields) => Self::from_fields(fields),
            _ => Err(DecodeError::InvalidType),
        }
    }

    open spec fn valid(self) -> bool {
        &&& self.alpha matches Some(x) ==> x.valid()
        &&& self.beta matches Some(x) ==> x.valid()
        &&& self.gamma matches Some(x) ==> x.valid()
        &&& self.beta_gamma matches Some(x) ==> x.valid()
    }

    proof fn lemma_round_trip(self) {
        self.lemma_fields();
        self.lemma_from_fields(self.fields());
    }
}

impl RadiationSensors {
    /// Appends the fields that stand for this record.
    pub fn put_fields(&self, fields: &mut Vec<(String, Value)>)
        ensures
            final(fields).deep_view() == self@.fields_after(old(fields).deep_view()),
    {
        reveal(RadiationSensorsView::fields_after);
        put_some(fields, "alpha", &self.alpha);
        put_some(fields, "beta", &self.beta);
        put_some(fields, "gamma", &self.gamma);
        put_some(fields, "beta_gamma", &self.beta_gamma);
    }

    /// Reads the record that the fields of an object stand for.
    pub fn from_fields(fields: &Vec<(String, Value)>) -> (r: Result<Self, DecodeError>)
        ensures
            decoded(r, RadiationSensorsView::from_fields(fields.deep_view())),
    {
        reveal(RadiationSensorsView::from_fields);
        let alpha = get_some::<Vec<RadiationSensor>>(fields, "alpha")?;
        let beta = get_some::<Vec<RadiationSensor>>(fields, "beta")?;
        let gamma = get_some::<Vec<RadiationSensor>>(fields, "gamma")?;
        let beta_gamma = get_some::<Vec<RadiationSensor>>(fields, "beta_gamma")?;
        Ok(RadiationSensors { alpha, beta, gamma, beta_gamma })
    }
}

impl Codec for RadiationSensors {
    fn to_value(&self) -> (r: Value) {
        broadcast use group_value_view;

        let mut fields: Vec<(String, Value)> = Vec::new();
        assert(fields.deep_view() =~= Seq::empty());
        self.put_fields(&mut fields);
        Value::Object(fields)
    }

    fn from_value(v: &Value) -> (r: Result<Self, DecodeError>) {
        broadcast use group_value_view;

        match v {
            Value::Object(fields) => Self::from_fields(fields),
            _ => Err(DecodeError::InvalidType),
        }
    }
}

} // verus!
