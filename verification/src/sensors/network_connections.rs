//! Network connection sensors.

use crate::codec::{
    decoded, get, get_some, group_lookup, lemma_literal, lemma_optional, lemma_required, lookup,
    maybe, one, optional, put, put_some, required, written, Codec, DecodeError, Fields, Model,
};
use crate::sensors::{
    registered, FromSensorTemplate, SensorMetadata, SensorMetadataView, SensorTemplate,
    SensorTemplateError, Sensors, SensorsView,
};
use crate::text::{parse_u64, str_eq, whole_number};
use crate::value::{group_value_view, Value, ValueView};
use vstd::prelude::*;

verus! {

/// The kind of network that connections are counted on.
#[derive(Debug, Clone, Copy, PartialEq, Eq, Structural)]
pub enum NetworkConnectionKind {
    Wifi,
    Cable,
    Spacenet,
}

impl DeepView for NetworkConnectionKind {
    type V = NetworkConnectionKind;

    open spec fn deep_view(&self) -> NetworkConnectionKind {
        *self
    }
}

impl View for NetworkConnectionKind {
    type V = NetworkConnectionKind;

    open spec fn view(&self) -> NetworkConnectionKind {
        *self
    }
}

impl NetworkConnectionKind {
    /// The name under which the variant stands in a document.
    pub open spec fn name(self) -> Seq<char> {
        match self {
            NetworkConnectionKind::Wifi => "wifi"@,
            NetworkConnectionKind::Cable => "cable"@,
            NetworkConnectionKind::Spacenet => "spacenet"@,
        }
    }

    /// The variant that stands in a document under the name `s`.
    pub open spec fn named(s: Seq<char>) -> Option<NetworkConnectionKind> {
        if s == "wifi"@ {
            Some(NetworkConnectionKind::Wifi)
        } else if s == "cable"@ {
            Some(NetworkConnectionKind::Cable)
        } else if s == "spacenet"@ {
            Some(NetworkConnectionKind::Spacenet)
        } else {
            None
        }
    }

    /// The name under which the variant stands in a document.
    pub fn as_str(&self) -> (r: &'static str)
        ensures
            r@ == self.name(),
    {
        match self {
            NetworkConnectionKind::Wifi => "wifi",
            NetworkConnectionKind::Cable => "cable",
            NetworkConnectionKind::Spacenet => "spacenet",
        }
    }

    /// The variant that stands in a document under the name `s`.
    pub fn from_name(s: &str) -> (r: Option<NetworkConnectionKind>)
        ensures
            r == NetworkConnectionKind::named(s@),
    {
        if str_eq(s, "wifi") {
            Some(NetworkConnectionKind::Wifi)
        } else if str_eq(s, "cable") {
            Some(NetworkConnectionKind::Cable)
        } else if str_eq(s, "spacenet") {
            Some(NetworkConnectionKind::Spacenet)
        } else {
            None
        }
    }
}

impl Model for NetworkConnectionKind {
    open spec fn encode(self) -> ValueView {
        ValueView::String(self.name())
    }

    open spec fn decode(v: ValueView) -> Result<Self, DecodeError> {
        match v {
            ValueView::String(s) => match NetworkConnectionKind::named(s) {
                Some(x) => Ok(x),
                None => Err(DecodeError::UnknownVariant),
            },
            _ => Err(DecodeError::InvalidType),
        }
    }

    open spec fn valid(self) -> bool {
        true
    }

    proof fn lemma_round_trip(self) {
        broadcast use lemma_literal;

        reveal_strlit("wifi");
        reveal_strlit("cable");
        reveal_strlit("spacenet");
    }
}

impl Codec for NetworkConnectionKind {
    fn to_value(&self) -> (r: Value) {
        Value::String(self.as_str().to_owned())
    }

    fn from_value(v: &Value) -> (r: Result<Self, DecodeError>) {
        match v {
            Value::String(s) => match NetworkConnectionKind::from_name(s.as_str()) {
                Some(x) => Ok(x),
                None => Err(DecodeError::UnknownVariant),
            },
            _ => Err(DecodeError::InvalidType),
        }
    }
}

/// A machine on the network.
#[derive(Debug, Default, PartialEq, Eq)]
pub struct NetworkConnectionMachine {
    pub name: Option<String>,
    pub mac: String,
}

/// The mathematical model of a [`NetworkConnectionMachine`].
pub struct NetworkConnectionMachineView {
    pub name: Option<Seq<char>>,
    pub mac: Seq<char>,
}

impl DeepView for NetworkConnectionMachine {
    type V = NetworkConnectionMachineView;

    open spec fn deep_view(&self) -> NetworkConnectionMachineView {
        NetworkConnectionMachineView {
            name: self.name.deep_view(),
            mac: self.mac.deep_view(),
        }
    }
}

impl View for NetworkConnectionMachine {
    type V = NetworkConnectionMachineView;

    open spec fn view(&self) -> NetworkConnectionMachineView {
        self.deep_view()
    }
}

impl Clone for NetworkConnectionMachine {
    fn clone(&self) -> (r: Self)
        ensures
            r@ == self@,
    {
        let name = self.name.clone();
        let mac = self.mac.clone();
        NetworkConnectionMachine { name, mac }
    }
}

impl NetworkConnectionMachineView {
    /// The fields of an object after this record was written behind `before`.
    #[verifier::opaque]
    pub open spec fn fields_after(self, before: Fields) -> Fields {
        before
            + maybe("name"@, self.name)
            + one("mac"@, self.mac.encode())
    }

    /// The fields that stand for this record.
    pub open spec fn fields(self) -> Fields {
        self.fields_after(Seq::empty())
    }

    /// The record that the fields of an object stand for, or the error of the
    /// first of its fields, in their order here, that cannot be read.
    #[verifier::opaque]
    pub open spec fn from_fields(fields: Fields) -> Result<Self, DecodeError> {
        let name = optional::<Seq<char>>(fields, "name");
        let mac = required::<Seq<char>>(fields, "mac");
        if name is Err {
            Err(name->Err_0)
        } else if mac is Err {
            Err(mac->Err_0)
        } else {
            Ok(NetworkConnectionMachineView {
                name: name->Ok_0,
                mac: mac->Ok_0,
            })
        }
    }

    /// What the written record holds under each of its keys: the tree of a
    /// value that is set, and nothing for one that is left out.
    pub proof fn lemma_fields(self)
        ensures
            lookup(self.fields(), "name"@) == written(self.name),
            lookup(self.fields(), "mac"@) == Some(self.mac.encode()),
    {
        broadcast use group_lookup;

        reveal(NetworkConnectionMachineView::fields_after);
        reveal_strlit("name");
        reveal_strlit("mac");
    }

    /// Fields that hold under each key of this record what the record writes
    /// there stand for this record.
    pub proof fn lemma_from_fields(self, fields: Fields)
        requires
            self.valid(),
            lookup(fields, "name"@) == written(self.name),
            lookup(fields, "mac"@) == Some(self.mac.encode()),
        ensures
            Self::from_fields(fields) == Ok::<Self, DecodeError>(self),
    {
        reveal(NetworkConnectionMachineView::from_fields);
        lemma_optional(fields, "name", self.name);
        lemma_required(fields, "mac", self.mac);
    }
}

impl Model for NetworkConnectionMachineView {
    open spec fn encode(self) -> ValueView {
        ValueView::Object(self.fields())
    }

    open spec fn decode(v: ValueView) -> Result<Self, DecodeError> {
        match v {
            ValueView::Object(fields) => Self::from_fields(fields),
            _ => Err(DecodeError::InvalidType),
        }
    }

    open spec fn valid(self) -> bool {
        true
    }

    proof fn lemma_round_trip(self) {
        self.lemma_fields();
        self.lemma_from_fields(self.fields());
    }
}

impl NetworkConnectionMachine {
    /// Appends the fields that stand for this record.
    pub fn put_fields(&self, fields: &mut Vec<(String, Value)>)
        ensures
            final(fields).deep_view() == self@.fields_after(old(fields).deep_view()),
    {
        reveal(NetworkConnectionMachineView::fields_after);
        put_some(fields, "name", &self.name);
        put(fields, "mac", &self.mac);
    }

    /// Reads the record that the fields of an object stand for.
    pub fn from_fields(fields: &Vec<(String, Value)>) -> (r: Result<Self, DecodeError>)
        ensures
            decoded(r, NetworkConnectionMachineView::from_fields(fields.deep_view())),
    {
        reveal(NetworkConnectionMachineView::from_fields);
        let name = get_some::<String>(fields, "name")?;
        let mac = get::<String>(fields, "mac")?;
        Ok(NetworkConnectionMachine { name, mac })
    }
}

impl Codec for NetworkConnectionMachine {
    fn to_value(&self) -> (r: Value) {
        broadcast use group_value_view;

        let mut fields: Vec<(String, Value)> = Vec::new();
        assert(fields.deep_view() =~= Seq::empty());
        self.put_fields(&mut fields);
        Value::Object(fields)
    }

    fn from_value(v: &Value) -> (r: Result<Self, DecodeError>) {
        broadcast use group_value_view;

        match v {
            Value::Object(fields) => Self::from_fields(fields),
            _ => Err(DecodeError::InvalidType),
        }
    }
}

/// How many machines are on the network.
#[derive(Debug, Default, PartialEq, Eq)]
pub struct NetworkConnectionsSensor {
    pub metadata: SensorMetadata,
    pub machines: Option<Vec<NetworkConnectionMachine>>,
    /// Written as `type`.
    pub kind: Option<NetworkConnectionKind>,
    pub value: u64,
}

/// The mathematical model of a [`NetworkConnectionsSensor`].
pub struct NetworkConnectionsSensorView {
    pub metadata: SensorMetadataView,
    pub machines: Option<Seq<NetworkConnectionMachineView>>,
    pub kind: Option<NetworkConnectionKind>,
    pub value: u64,
}

impl DeepView for NetworkConnectionsSensor {
    type V = NetworkConnectionsSensorView;

    open spec fn deep_view(&self) -> NetworkConnectionsSensorView {
        NetworkConnectionsSensorView {
            metadata: self.metadata.deep_view(),
            machines: self.machines.deep_view(),
            kind: self.kind.deep_view(),
            value: self.value.deep_view(),
        }
    }
}

impl View for NetworkConnectionsSensor {
    type V = NetworkConnectionsSensorView;

    open spec fn view(&self) -> NetworkConnectionsSensorView {
        self.deep_view()
    }
}

impl Clone for NetworkConnectionsSensor {
    fn clone(&self) -> (r: Self)
        ensures
            r@ == self@,
    {
        let metadata = self.metadata.clone();
        let machines = self.machines.clone();
        let kind = self.kind.clone();
        let value = self.value.clone();
        NetworkConnectionsSensor { metadata, machines, kind, value }
    }
}

impl NetworkConnectionsSensorView {
    /// The fields of an object after this record was written behind `before`.
    #[verifier::opaque]
    pub open spec fn fields_after(self, before: Fields) -> Fields {
        self.metadata.fields_after(before)
            + maybe("machines"@, self.machines)
            + maybe("type"@, self.kind)
            + one("value"@, self.value.encode())
    }

    /// The fields that stand for this record.
    pub open spec fn fields(self) -> Fields {
        self.fields_after(Seq::empty())
    }

    /// The record that the fields of an object stand for, or the error of the
    /// first of its fields, in their order here, that cannot be read.
    #[verifier::opaque]
    pub open spec fn from_fields(fields: Fields) -> Result<Self, DecodeError> {
        let metadata = SensorMetadataView::from_fields(fields);
        let machines = optional::<Seq<NetworkConnectionMachineView>>(fields, "machines");
        let kind = optional::<NetworkConnectionKind>(fields, "type");
        let value = required::<u64>(fields, "value");
        if metadata is Err {
            Err(metadata->Err_0)
        } else if machines is Err {
            Err(machines->Err_0)
        } else if kind is Err {
            Err(kind->Err_0)
        } else if value is Err {
            Err(value->Err_0)
        } else {
            Ok(NetworkConnectionsSensorView {
                metadata: metadata->Ok_0,
                machines: machines->Ok_0,
                kind: kind->Ok_0,
                value: value->Ok_0,
            })
        }
    }

    /// What the written record holds under each of its keys: the tree of a
    /// value that is set, and nothing for one that is left out.
    pub proof fn lemma_fields(self)
        ensures
            lookup(self.fields(), "name"@) == written(self.metadata.name),
            lookup(self.fields(), "location"@) == written(self.metadata.location),
            lookup(self.fields(), "description"@) == written(self.metadata.description),
            lookup(self.fields(), "machines"@) == written(self.machines),
            lookup(self.fields(), "type"@) == written(self.kind),
            lookup(self.fields(), "value"@) == Some(self.value.encode()),
    {
        broadcast use group_lookup;

        reveal(NetworkConnectionsSensorView::fields_after);
        reveal(SensorMetadataView::fields_after);
        reveal_strlit("name");
        reveal_strlit("location");
        reveal_strlit("description");
        reveal_strlit("machines");
        reveal_strlit("type");
        reveal_strlit("value");
    }

    /// Fields that hold under each key of this record what the record writes
    /// there stand for this record.
    pub proof fn lemma_from_fields(self, fields: Fields)
        requires
            self.valid(),
            lookup(fields, "name"@) == written(self.metadata.name),
            lookup(fields, "location"@) == written(self.metadata.location),
            lookup(fields, "description"@) == written(self.metadata.description),
            lookup(fields, "machines"@) == written(self.machines),
            lookup(fields, "type"@) == written(self.kind),
            lookup(fields, "value"@) == Some(self.value.encode()),
        ensures
            Self::from_fields(fields) == Ok::<Self, DecodeError>(self),
    {
        reveal(NetworkConnectionsSensorView::from_fields);
        self.metadata.lemma_from_fields(fields);
        lemma_optional(fields, "machines", self.machines);
        lemma_optional(fields, "type", self.kind);
        lemma_required(fields, "value", self.value);
    }
}

impl Model for NetworkConnectionsSensorView {
    open spec fn encode(self) -> ValueView {
        ValueView::Object(self.fields())
    }

    open spec fn decode(v: ValueView) -> Result<Self, DecodeError> {
        match v {
            ValueView::Object(fields) => Self::from_fields(fields),
            _ => Err(DecodeError::InvalidType),
        }
    }

    open spec fn valid(self) -> bool {
        &&& self.metadata.valid()
        &&& self.machines matches Some(x) ==> x.valid()
    }

    proof fn lemma_round_trip(self) {
        self.lemma_fields();
        self.lemma_from_fields(self.fields());
    }
}

impl NetworkConnectionsSensor {
    /// Appends the fields that stand for this record.
    pub fn put_fields(&self, fields: &mut Vec<(String, Value)>)
        ensures
            final(fields).deep_view() == self@.fields_after(old(fields).deep_view()),
    {
        reveal(NetworkConnectionsSensorView::fields_after);
        self.metadata.put_fields(fields);
        put_some(fields, "machines", &self.machines);
        put_some(fields, "type", &self.kind);
        put(fields, "value", &self.value);
    }

    /// Reads the record that the fields of an object stand for.
    pub fn from_fields(fields: &Vec<(String, Value)>) -> (r: Result<Self, DecodeError>)
        ensures
            decoded(r, NetworkConnectionsSensorView::from_fields(fields.deep_view())),
    {
        reveal(NetworkConnectionsSensorView::from_fields);
        let metadata = SensorMetadata::from_fields(fields)?;
        let machines = get_some::<Vec<NetworkConnectionMachine>>(fields, "machines")?;
        let kind = get_some::<NetworkConnectionKind>(fields, "type")?;
        let value = get::<u64>(fields, "value")?;
        Ok(NetworkConnectionsSensor { metadata, machines, kind, value })
    }
}

impl Codec for NetworkConnectionsSensor {
    fn to_value(&self) -> (r: Value) {
        broadcast use group_value_view;

        let mut fields: Vec<(String, Value)> = Vec::new();
        assert(fields.deep_view() =~= Seq::empty());
        self.put_fields(&mut fields);
        Value::Object(fields)
    }

    fn from_value(v: &Value) -> (r: Result<Self, DecodeError>) {
        broadcast use group_value_view;

        match v {
            Value::Object(fields) => Self::from_fields(fields),
            _ => Err(DecodeError::InvalidType),
        }
    }
}

/// A network connection sensor without its reading.
#[derive(Debug)]
pub struct NetworkConnectionsSensorTemplate {
    pub metadata: SensorMetadata,
    pub kind: Option<NetworkConnectionKind>,
}

/// The mathematical model of a [`NetworkConnectionsSensorTemplate`].
pub struct NetworkConnectionsSensorTemplateView {
    pub metadata: SensorMetadataView,
    pub kind: Option<NetworkConnectionKind>,
}

impl DeepView for NetworkConnectionsSensorTemplate {
    type V = NetworkConnectionsSensorTemplateView;

    open spec fn deep_view(&self) -> NetworkConnectionsSensorTemplateView {
        NetworkConnectionsSensorTemplateView {
            metadata: self.metadata.deep_view(),
            kind: self.kind.deep_view(),
        }
    }
}

impl View for NetworkConnectionsSensorTemplate {
    type V = NetworkConnectionsSensorTemplateView;

    open spec fn view(&self) -> NetworkConnectionsSensorTemplateView {
        self.deep_view()
    }
}

impl Clone for NetworkConnectionsSensorTemplate {
    fn clone(&self) -> (r: Self)
        ensures
            r@ == self@,
    {
        let metadata = self.metadata.clone();
        let kind = self.kind.clone();
        NetworkConnectionsSensorTemplate { metadata, kind }
    }
}

impl FromSensorTemplate<NetworkConnectionsSensorTemplate> for NetworkConnectionsSensor {
    /// The template's fields and the value that the text stands for. A text
    /// that stands for none makes no sensor.
    open spec fn from_reading(
        template: NetworkConnectionsSensorTemplateView,
        value: Seq<char>,
    ) -> Result<Self::V, SensorTemplateError> {
        match whole_number(value) {
            Some(value) => Ok(
                NetworkConnectionsSensorView {
                    metadata: template.metadata,
                    machines: None,
                    kind: template.kind,
                    value,
                },
            ),
            None => Err(SensorTemplateError::BadInteger),
        }
    }

    fn try_from_template(
        template: &NetworkConnectionsSensorTemplate,
        value: &str,
    ) -> (r: Result<Self, SensorTemplateError>) {
        match parse_u64(value) {
            Some(value) => Ok(
                NetworkConnectionsSensor {
                    metadata: template.metadata.clone(),
                    machines: None,
                    kind: template.kind.clone(),
                    value,
                },
            ),
            None => Err(SensorTemplateError::BadInteger),
        }
    }
}

impl SensorTemplate for NetworkConnectionsSensorTemplate {
    /// The sensors with one more of this kind.
    open spec fn registered(
        template: Self::V,
        value: Seq<char>,
        sensors: SensorsView,
    ) -> Result<SensorsView, SensorTemplateError> {
        match NetworkConnectionsSensor::from_reading(template, value) {
            Ok(sensor) => Ok(
                SensorsView {
                    network_connections: sensors.network_connections.push(sensor),
                    ..sensors
                },
            ),
            Err(e) => Err(e),
        }
    }

    fn try_to_sensor(
        &self,
        value_str: &str,
        sensors: &mut Sensors,
    ) -> (r: Result<(), SensorTemplateError>) {
        let sensor = NetworkConnectionsSensor::try_from_template(self, value_str)?;
        let ghost before = sensors.network_connections.deep_view();
        sensors.network_connections.push(sensor);
        assert(sensors.network_connections.deep_view() =~= before.push(sensor@));
        Ok(())
    }
}

} // verus!
