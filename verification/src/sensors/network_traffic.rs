//! Network traffic sensors.

use crate::codec::{
    decoded, get, get_some, group_lookup, lemma_optional, lemma_required, lookup, maybe, one,
    optional, put, put_some, required, written, Codec, DecodeError, Fields, Model,
};
use crate::number::Double;
use crate::sensors::{SensorMetadata, SensorMetadataView};
use crate::value::{group_value_view, Value, ValueView};
use vstd::prelude::*;

verus! {

/// Traffic in bits per second.
#[derive(Debug, Default, PartialEq, Eq)]
pub struct NetworkTrafficBitsPerSecond {
    pub value: Double,
    pub maximum: Option<Double>,
}

/// The mathematical model of a [`NetworkTrafficBitsPerSecond`].
pub struct NetworkTrafficBitsPerSecondView {
    pub value: Double,
    pub maximum: Option<Double>,
}

impl DeepView for NetworkTrafficBitsPerSecond {
    type V = NetworkTrafficBitsPerSecondView;

    open spec fn deep_view(&self) -> NetworkTrafficBitsPerSecondView {
        NetworkTrafficBitsPerSecondView {
            value: self.value.deep_view(),
            maximum: self.maximum.deep_view(),
        }
    }
}

impl View for NetworkTrafficBitsPerSecond {
    type V = NetworkTrafficBitsPerSecondView;

    open spec fn view(&self) -> NetworkTrafficBitsPerSecondView {
        self.deep_view()
    }
}

impl Clone for NetworkTrafficBitsPerSecond {
    fn clone(&self) -> (r: Self)
        ensures
            r@ == self@,
    {
        let value = self.value.clone();
        let maximum = self.maximum.clone();
        NetworkTrafficBitsPerSecond { value, maximum }
    }
}

impl NetworkTrafficBitsPerSecondView {
    /// The fields of an object after this record was written behind `before`.
    #[verifier::opaque]
    pub open spec fn fields_after(self, before: Fields) -> Fields {
        before
            + one("value"@, self.value.encode())
            + maybe("maximum"@, self.maximum)
    }

    /// The fields that stand for this record.
    pub open spec fn fields(self) -> Fields {
        self.fields_after(Seq::empty())
    }

    /// The record that the fields of an object stand for, or the error of the
    /// first of its fields, in their order here, that cannot be read.
    #[verifier::opaque]
    pub open spec fn from_fields(fields: Fields) -> Result<Self, DecodeError> {
        let value = required::<Double>(fields, "value");
        let maximum = optional::<Double>(fields, "maximum");
        if value is Err {
            Err(value->Err_0)
        } else if maximum is Err {
            Err(maximum->Err_0)
        } else {
            Ok(NetworkTrafficBitsPerSecondView {
                value: value->Ok_0,
                maximum: maximum->Ok_0,
            })
        }
    }

    /// What the written record holds under each of its keys: the tree of a
    /// value that is set, and nothing for one that is left out.
    pub proof fn lemma_fields(self)
        ensures
            lookup(self.fields(), "value"@) == Some(self.value.encode()),
            lookup(self.fields(), "maximum"@) == written(self.maximum),
    {
        broadcast use group_lookup;

        reveal(NetworkTrafficBitsPerSecondView::fields_after);
        reveal_strlit("value");
        reveal_strlit("maximum");
    }

    /// Fields that hold under each key of this record what the record writes
    /// there stand for this record.
    pub proof fn lemma_from_fields(self, fields: Fields)
        requires
            self.valid(),
            lookup(fields, "value"@) == Some(self.value.encode()),
            lookup(fields, "maximum"@) == written(self.maximum),
        ensures
            Self::from_fields(fields) == Ok::<Self, DecodeError>(self),
    {
        reveal(NetworkTrafficBitsPerSecondView::from_fields);
        lemma_required(fields, "value", self.value);
        lemma_optional(fields, "maximum", self.maximum);
    }
}

impl Model for NetworkTrafficBitsPerSecondView {
    open spec fn encode(self) -> ValueView {
        ValueView::Object(self.fields())
    }

    open spec fn decode(v: ValueView) -> Result<Self, DecodeError> {
        match v {
            ValueView::Object(fields) => Self::from_fields(fields),
            _ => Err(DecodeError::InvalidType),
        }
    }

    open spec fn valid(self) -> bool {
        &&& self.value.valid()
        &&& self.maximum matches Some(x) ==> x.valid()
    }

    proof fn lemma_round_trip(self) {
        self.lemma_fields();
        self.lemma_from_fields(self.fields());
    }
}

impl NetworkTrafficBitsPerSecond {
    /// Appends the fields that stand for this record.
    pub fn put_fields(&self, fields: &mut Vec<(String, Value)>)
        ensures
            final(fields).deep_view() == self@.fields_after(old(fields).deep_view()),
    {
        reveal(NetworkTrafficBitsPerSecondView::fields_after);
        put(fields, "value", &self.value);
        put_some(fields, "maximum", &self.maximum);
    }

    /// Reads the record that the fields of an object stand for.
    pub fn from_fields(fields: &Vec<(String, Value)>) -> (r: Result<Self, DecodeError>)
        ensures
            decoded(r, NetworkTrafficBitsPerSecondView::from_fields(fields.deep_view())),
    {
        reveal(NetworkTrafficBitsPerSecondView::from_fields);
        let value = get::<Double>(fields, "value")?;
        let maximum = get_some::<Double>(fields, "maximum")?;
        Ok(NetworkTrafficBitsPerSecond { value, maximum })
    }
}

impl Codec for NetworkTrafficBitsPerSecond {
    fn to_value(&self) -> (r: Value) {
        broadcast use group_value_view;

        let mut fields: Vec<(String, Value)> = Vec::new();
        assert(fields.deep_view() =~= Seq::empty());
        self.put_fields(&mut fields);
        Value::Object(fields)
    }

    fn from_value(v: &Value) -> (r: Result<Self, DecodeError>) {
        broadcast use group_value_view;

        match v {
            Value::Object(fields) => Self::from_fields(fields),
            _ => Err(DecodeError::InvalidType),
        }
    }
}

/// Traffic in packets per second.
#[derive(Debug, Default, PartialEq, Eq)]
pub struct NetworkTrafficPacketsPerSecond {
    pub value: Double,
}

/// The mathematical model of a [`NetworkTrafficPacketsPerSecond`].
pub struct NetworkTrafficPacketsPerSecondView {
    pub value: Double,
}

impl DeepView for NetworkTrafficPacketsPerSecond {
    type V = NetworkTrafficPacketsPerSecondView;

    open spec fn deep_view(&self) -> NetworkTrafficPacketsPerSecondView {
        NetworkTrafficPacketsPerSecondView {
            value: self.value.deep_view(),
        }
    }
}

impl View for NetworkTrafficPacketsPerSecond {
    type V = NetworkTrafficPacketsPerSecondView;

    open spec fn view(&self) -> NetworkTrafficPacketsPerSecondView {
        self.deep_view()
    }
}

impl Clone for NetworkTrafficPacketsPerSecond {
    fn clone(&self) -> (r: Self)
        ensures
            r@ == self@,
    {
        let value = self.value.clone();
        NetworkTrafficPacketsPerSecond { value }
    }
}

impl NetworkTrafficPacketsPerSecondView {
    /// The fields of an object after this record was written behind `before`.
    #[verifier::opaque]
    pub open spec fn fields_after(self, before: Fields) -> Fields {
        before
            + one("value"@, self.value.encode())
    }

    /// The fields that stand for this record.
    pub open spec fn fields(self) -> Fields {
        self.fields_after(Seq::empty())
    }

    /// The record that the fields of an object stand for, or the error of the
    /// first of its fields, in their order here, that cannot be read.
    #[verifier::opaque]
    pub open spec fn from_fields(fields: Fields) -> Result<Self, DecodeError> {
        let value = required::<Double>(fields, "value");
        if value is Err {
            Err(value->Err_0)
        } else {
            Ok(NetworkTrafficPacketsPerSecondView {
                value: value->Ok_0,
            })
        }
    }

    /// What the written record holds under each of its keys: the tree of a
    /// value that is set, and nothing for one that is left out.
    pub proof fn lemma_fields(self)
        ensures
            lookup(self.fields(), "value"@) == Some(self.value.encode()),
    {
        broadcast use group_lookup;

        reveal(NetworkTrafficPacketsPerSecondView::fields_after);
        reveal_strlit("value");
    }

    /// Fields that hold under each key of this record what the record writes
    /// there stand for this record.
    pub proof fn lemma_from_fields(self, fields: Fields)
        requires
            self.valid(),
            lookup(fields, "value"@) == Some(self.value.encode()),
        ensures
            Self::from_fields(fields) == Ok::<Self, DecodeError>(self),
    {
        reveal(NetworkTrafficPacketsPerSecondView::from_fields);
        lemma_required(fields, "value", self.value);
    }
}

impl Model for NetworkTrafficPacketsPerSecondView {
    open spec fn encode(self) -> ValueView {
        ValueView::Object(self.fields())
    }

    open spec fn decode(v: ValueView) -> Result<Self, DecodeError> {
        match v {
            ValueView::Object(fields) => Self::from_fields(fields),
            _ => Err(DecodeError::InvalidType),
        }
    }

    open spec fn valid(self) -> bool {
        &&& self.value.valid()
    }

    proof fn lemma_round_trip(self) {
        self.lemma_fields();
        self.lemma_from_fields(self.fields());
    }
}

impl NetworkTrafficPacketsPerSecond {
    /// Appends the fields that stand for this record.
    pub fn put_fields(&self, fields: &mut Vec<(String, Value)>)
        ensures
            final(fields).deep_view() == self@.fields_after(old(fields).deep_view()),
    {
        reveal(NetworkTrafficPacketsPerSecondView::fields_after);
        put(fields, "value", &self.value);
    }

    /// Reads the record that the fields of an object stand for.
    pub fn from_fields(fields: &Vec<(String, Value)>) -> (r: Result<Self, DecodeError>)
        ensures
            decoded(r, NetworkTrafficPacketsPerSecondView::from_fields(fields.deep_view())),
    {
        reveal(NetworkTrafficPacketsPerSecondView::from_fields);
        let value = get::<Double>(fields, "value")?;
        Ok(NetworkTrafficPacketsPerSecond { value })
    }
}

impl Codec for NetworkTrafficPacketsPerSecond {
    fn to_value(&self) -> (r: Value) {
        broadcast use group_value_view;

        let mut fields: Vec<(String, Value)> = Vec::new();
        assert(fields.deep_view() =~= Seq::empty());
        self.put_fields(&mut fields);
        Value::Object(fields)
    }

    fn from_value(v: &Value) -> (r: Result<Self, DecodeError>) {
        broadcast use group_value_view;

        match v {
            Value::Object(fields) => Self::from_fields(fields),
            _ => Err(DecodeError::InvalidType),
        }
    }
}

/// What a traffic sensor measures.
#[derive(Debug, Default, PartialEq, Eq)]
pub struct NetworkTrafficSensorProperties {
    pub bits_per_second: Option<NetworkTrafficBitsPerSecond>,
    pub packets_per_second: Option<NetworkTrafficPacketsPerSecond>,
}

/// The mathematical model of a [`NetworkTrafficSensorProperties`].
pub struct NetworkTrafficSensorPropertiesView {
    pub bits_per_second: Option<NetworkTrafficBitsPerSecondView>,
    pub packets_per_second: Option<NetworkTrafficPacketsPerSecondView>,
}

impl DeepView for NetworkTrafficSensorProperties {
    type V = NetworkTrafficSensorPropertiesView;

    open spec fn deep_view(&self) -> NetworkTrafficSensorPropertiesView {
        NetworkTrafficSensorPropertiesView {
            bits_per_second: self.bits_per_second.deep_view(),
            packets_per_second: self.packets_per_second.deep_view(),
        }
    }
}

impl View for NetworkTrafficSensorProperties {
    type V = NetworkTrafficSensorPropertiesView;

    open spec fn view(&self) -> NetworkTrafficSensorPropertiesView {
        self.deep_view()
    }
}

impl Clone for NetworkTrafficSensorProperties {
    fn clone(&self) -> (r: Self)
        ensures
            r@ == self@,
    {
        let bits_per_second = self.bits_per_second.clone();
        let packets_per_second = self.packets_per_second.clone();
        NetworkTrafficSensorProperties { bits_per_second, packets_per_second }
    }
}

impl NetworkTrafficSensorPropertiesView {
    /// The fields of an object after this record was written behind `before`.
    #[verifier::opaque]
    pub open spec fn fields_after(self, before: Fields) -> Fields {
        before
            + maybe("bits_per_second"@, self.bits_per_second)
            + maybe("packets_per_second"@, self.packets_per_second)
    }

    /// The fields that stand for this record.
    pub open spec fn fields(self) -> Fields {
        self.fields_after(Seq::empty())
    }

    /// The record that the fields of an object stand for, or the error of the
    /// first of its fields, in their order here, that cannot be read.
    #[verifier::opaque]
    pub open spec fn from_fields(fields: Fields) -> Result<Self, DecodeError> {
        let bits_per_second = optional::<NetworkTrafficBitsPerSecondView>(
            fields,
            "bits_per_second",
        );
        let packets_per_second = optional::<NetworkTrafficPacketsPerSecondView>(
            fields,
            "packets_per_second",
        );
        if bits_per_second is Err {
            Err(bits_per_second->Err_0)
        } else if packets_per_second is Err {
            Err(packets_per_second->Err_0)
        } else {
            Ok(NetworkTrafficSensorPropertiesView {
                bits_per_second: bits_per_second->Ok_0,
                packets_per_second: packets_per_second->Ok_0,
            })
        }
    }

    /// What the written record holds under each of its keys: the tree of a
    /// value that is set, and nothing for one that is left out.
    pub proof fn lemma_fields(self)
        ensures
            lookup(self.fields(), "bits_per_second"@) == written(self.bits_per_second),
            lookup(self.fields(), "packets_per_second"@) == written(self.packets_per_second),
    {
        broadcast use group_lookup;

        reveal(NetworkTrafficSensorPropertiesView::fields_after);
        reveal_strlit("bits_per_second");
        reveal_strlit("packets_per_second");
    }

    /// Fields that hold under each key of this record what the record writes
    /// there stand for this record.
    pub proof fn lemma_from_fields(self, fields: Fields)
        requires
            self.valid(),
            lookup(fields, "bits_per_second"@) == written(self.bits_per_second),
            lookup(fields, "packets_per_second"@) == written(self.packets_per_second),
        ensures
            Self::from_fields(fields) == Ok::<Self, DecodeError>(self),
    {
        reveal(NetworkTrafficSensorPropertiesView::from_fields);
        lemma_optional(fields, "bits_per_second", self.bits_per_second);
        lemma_optional(fields, "packets_per_second", self.packets_per_second);
    }
}

impl Model for NetworkTrafficSensorPropertiesView {
    open spec fn encode(self) -> ValueView {
        ValueView::Object(self.fields())
    }

    open spec fn decode(v: ValueView) -> Result<Self, DecodeError> {
        match v {
            ValueView::Object(fields) => Self::from_fields(fields),
            _ => Err(DecodeError::InvalidType),
        }
    }

    open spec fn valid(self) -> bool {
        &&& self.bits_per_second matches Some(x) ==> x.valid()
        &&& self.packets_per_second matches Some(x) ==> x.valid()
    }

    proof fn lemma_round_trip(self) {
        self.lemma_fields();
        self.lemma_from_fields(self.fields());
    }
}

impl NetworkTrafficSensorProperties {
    /// Appends the fields that stand for this record.
    pub fn put_fields(&self, fields: &mut Vec<(String, Value)>)
        ensures
            final(fields).deep_view() == self@.fields_after(old(fields).deep_view()),
    {
        reveal(NetworkTrafficSensorPropertiesView::fields_after);
        put_some(fields, "bits_per_second", &self.bits_per_second);
        put_some(fields, "packets_per_second", &self.packets_per_second);
    }

    /// Reads the record that the fields of an object stand for.
    pub fn from_fields(fields: &Vec<(String, Value)>) -> (r: Result<Self, DecodeError>)
        ensures
            decoded(r, NetworkTrafficSensorPropertiesView::from_fields(fields.deep_view())),
    {
        reveal(NetworkTrafficSensorPropertiesView::from_fields);
        let bits_per_second = get_some::<NetworkTrafficBitsPerSecond>(fields, "bits_per_second")?;
        let packets_per_second = get_some::<NetworkTrafficPacketsPerSecond>(
            fields,
            "packets_per_second",
        )?;
        Ok(NetworkTrafficSensorProperties { bits_per_second, packets_per_second })
    }
}

impl Codec for NetworkTrafficSensorProperties {
    fn to_value(&self) -> (r: Value) {
        broadcast use group_value_view;

        let mut fields: Vec<(String, Value)> = Vec::new();
        assert(fields.deep_view() =~= Seq::empty());
        self.put_fields(&mut fields);
        Value::Object(fields)
    }

    fn from_value(v: &Value) -> (r: Result<Self, DecodeError>) {
        broadcast use group_value_view;

        match v {
            Value::Object(fields) => Self::from_fields(fields),
            _ => Err(DecodeError::InvalidType),
        }
    }
}

/// The reading of a traffic sensor.
#[derive(Debug, Default, PartialEq, Eq)]
pub struct NetworkTrafficSensor {
    pub metadata: SensorMetadata,
    pub properties: NetworkTrafficSensorProperties,
}

/// The mathematical model of a [`NetworkTrafficSensor`].
pub struct NetworkTrafficSensorView {
    pub metadata: SensorMetadataView,
    pub properties: NetworkTrafficSensorPropertiesView,
}

impl DeepView for NetworkTrafficSensor {
    type V = NetworkTrafficSensorView;

    open spec fn deep_view(&self) -> NetworkTrafficSensorView {
        NetworkTrafficSensorView {
            metadata: self.metadata.deep_view(),
            properties: self.properties.deep_view(),
        }
    }
}

impl View for NetworkTrafficSensor {
    type V = NetworkTrafficSensorView;

    open spec fn view(&self) -> NetworkTrafficSensorView {
        self.deep_view()
    }
}

impl Clone for NetworkTrafficSensor {
    fn clone(&self) -> (r: Self)
        ensures
            r@ == self@,
    {
        let metadata = self.metadata.clone();
        let properties = self.properties.clone();
        NetworkTrafficSensor { metadata, properties }
    }
}

impl NetworkTrafficSensorView {
    /// The fields of an object after this record was written behind `before`.
    #[verifier::opaque]
    pub open spec fn fields_after(self, before: Fields) -> Fields {
        self.metadata.fields_after(before)
            + one("properties"@, self.properties.encode())
    }

    /// The fields that stand for this record.
    pub open spec fn fields(self) -> Fields {
        self.fields_after(Seq::empty())
    }

    /// The record that the fields of an object stand for, or the error of the
    /// first of its fields, in their order here, that cannot be read.
    #[verifier::opaque]
    pub open spec fn from_fields(fields: Fields) -> Result<Self, DecodeError> {
        let metadata = SensorMetadataView::from_fields(fields);
        let properties = required::<NetworkTrafficSensorPropertiesView>(fields, "properties");
        if metadata is Err {
            Err(metadata->Err_0)
        } else if properties is Err {
            Err(properties->Err_0)
        } else {
            Ok(NetworkTrafficSensorView {
                metadata: metadata->Ok_0,
                properties: properties->Ok_0,
            })
        }
    }

    /// What the written record holds under each of its keys: the tree of a
    /// value that is set, and nothing for one that is left out.
    pub proof fn lemma_fields(self)
        ensures
            lookup(self.fields(), "name"@) == written(self.metadata.name),
            lookup(self.fields(), "location"@) == written(self.metadata.location),
            lookup(self.fields(), "description"@) == written(self.metadata.description),
            lookup(self.fields(), "properties"@) == Some(self.properties.encode()),
    {
        broadcast use group_lookup;

        reveal(NetworkTrafficSensorView::fields_after);
        reveal(SensorMetadataView::fields_after);
        reveal_strlit("name");
        reveal_strlit("location");
        reveal_strlit("description");
        reveal_strlit("properties");
    }

    /// Fields that hold under each key of this record what the record writes
    /// there stand for this record.
    pub proof fn lemma_from_fields(self, fields: Fields)
        requires
            self.valid(),
            lookup(fields, "name"@) == written(self.metadata.name),
            lookup(fields, "location"@) == written(self.metadata.location),
            lookup(fields, "description"@) == written(self.metadata.description),
            lookup(fields, "properties"@) == Some(self.properties.encode()),
        ensures
            Self::from_fields(fields) == Ok::<Self, DecodeError>(self),
    {
        reveal(NetworkTrafficSensorView::from_fields);
        self.metadata.lemma_from_fields(fields);
        lemma_required(fields, "properties", self.properties);
    }
}

impl Model for NetworkTrafficSensorView {
    open spec fn encode(self) -> ValueView {
        ValueView::Object(self.fields())
    }

    open spec fn decode(v: ValueView) -> Result<Self, DecodeError> {
        match v {
            ValueView::Object(fields) => Self::from_fields(fields),
            _ => Err(DecodeError::InvalidType),
        }
    }

    open spec fn valid(self) -> bool {
        &&& self.metadata.valid()
        &&& self.properties.valid()
    }

    proof fn lemma_round_trip(self) {
        self.lemma_fields();
        self.lemma_from_fields(self.fields());
    }
}

impl NetworkTrafficSensor {
    /// Appends the fields that stand for this record.
    pub fn put_fields(&self, fields: &mut Vec<(String, Value)>)
        ensures
            final(fields).deep_view() == self@.fields_after(old(fields).deep_view()),
    {
        reveal(NetworkTrafficSensorView::fields_after);
        self.metadata.put_fields(fields);
        put(fields, "properties", &self.properties);
    }

    /// Reads the record that the fields of an object stand for.
    pub fn from_fields(fields: &Vec<(String, Value)>) -> (r: Result<Self, DecodeError>)
        ensures
            decoded(r, NetworkTrafficSensorView::from_fields(fields.deep_view())),
    {
        reveal(NetworkTrafficSensorView::from_fields);
        let metadata = SensorMetadata::from_fields(fields)?;
        let properties = get::<NetworkTrafficSensorProperties>(fields, "properties")?;
        Ok(NetworkTrafficSensor { metadata, properties })
    }
}

impl Codec for NetworkTrafficSensor {
    fn to_value(&self) -> (r: Value) {
        broadcast use group_value_view;

        let mut fields: Vec<(String, Value)> = Vec::new();
        assert(fields.deep_view() =~= Seq::empty());
        self.put_fields(&mut fields);
        Value::Object(fields)
    }

    fn from_value(v: &Value) -> (r: Result<Self, DecodeError>) {
        broadcast use group_value_view;

        match v {
            Value::Object(fields) => Self::from_fields(fields),
            _ => Err(DecodeError::InvalidType),
        }
    }
}

} // verus!
