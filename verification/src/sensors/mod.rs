//! The sensors of a space and their readings.
//!
//! A sensor is made of a template, which holds all but the reading, and of the
//! reading. A sensor that counts or that says yes or no takes its reading as text
//! ([`SensorTemplate`], [`FromSensorTemplate`]). A sensor that measures takes it as
//! the number that was read from the text, or as nothing where the text was no
//! number: numbers with a fraction are held here as bit patterns and are read from
//! text elsewhere.

pub mod account_balance;
pub mod barometer;
pub mod beverage_supply;
pub mod door_locked;
pub mod humidity;
pub mod network_connections;
pub mod network_traffic;
pub mod people_now_present;
pub mod power_consumption;
pub mod radiation;
pub mod temperature;
pub mod total_member_count;
pub mod wind;

pub use crate::sensors::account_balance::{AccountBalanceSensor, AccountBalanceSensorTemplate};
pub use crate::sensors::barometer::{BarometerSensor, BarometerSensorTemplate};
pub use crate::sensors::beverage_supply::{BeverageSupplySensor, BeverageSupplySensorTemplate};
pub use crate::sensors::door_locked::{DoorLockedSensor, DoorLockedSensorTemplate};
pub use crate::sensors::humidity::{HumiditySensor, HumiditySensorTemplate};
pub use crate::sensors::network_connections::{
    NetworkConnectionKind, NetworkConnectionMachine, NetworkConnectionsSensor,
    NetworkConnectionsSensorTemplate,
};
pub use crate::sensors::network_traffic::{
    NetworkTrafficBitsPerSecond, NetworkTrafficPacketsPerSecond, NetworkTrafficSensor,
    NetworkTrafficSensorProperties,
};
pub use crate::sensors::people_now_present::{
    PeopleNowPresentSensor, PeopleNowPresentSensorTemplate,
};
pub use crate::sensors::power_consumption::{
    PowerConsumptionSensor, PowerConsumptionSensorTemplate,
};
pub use crate::sensors::radiation::{RadiationSensor, RadiationSensorUnit, RadiationSensors};
pub use crate::sensors::temperature::{TemperatureSensor, TemperatureSensorTemplate};
pub use crate::sensors::total_member_count::{
    TotalMemberCountSensor, TotalMemberCountSensorTemplate,
};
pub use crate::sensors::wind::{WindSensor, WindSensorMeasurement, WindSensorProperties};

use crate::codec::{
    decoded, get, get_list, get_some, group_lookup, lemma_listed, lemma_optional, lemma_required,
    listed, lookup, maybe, one, optional, put, put_list, put_some, required, unless_empty, written,
    written_list, Codec, DecodeError, Fields, Model,
};
use crate::sensors::account_balance::AccountBalanceSensorView;
use crate::sensors::barometer::BarometerSensorView;
use crate::sensors::beverage_supply::BeverageSupplySensorView;
use crate::sensors::door_locked::DoorLockedSensorView;
use crate::sensors::humidity::HumiditySensorView;
use crate::sensors::network_connections::NetworkConnectionsSensorView;
use crate::sensors::network_traffic::NetworkTrafficSensorView;
use crate::sensors::people_now_present::PeopleNowPresentSensorView;
use crate::sensors::power_consumption::PowerConsumptionSensorView;
use crate::sensors::radiation::RadiationSensorsView;
use crate::sensors::temperature::TemperatureSensorView;
use crate::sensors::total_member_count::TotalMemberCountSensorView;
use crate::sensors::wind::WindSensorView;
use crate::value::{group_value_view, Value, ValueView};
use vstd::prelude::*;

verus! {

/// What is known of any sensor.
#[derive(Debug, Default, PartialEq, Eq)]
pub struct SensorMetadata {
    pub name: Option<String>,
    pub location: Option<String>,
    pub description: Option<String>,
}

/// The mathematical model of a [`SensorMetadata`].
pub struct SensorMetadataView {
    pub name: Option<Seq<char>>,
    pub location: Option<Seq<char>>,
    pub description: Option<Seq<char>>,
}

impl DeepView for SensorMetadata {
    type V = SensorMetadataView;

    open spec fn deep_view(&self) -> SensorMetadataView {
        SensorMetadataView {
            name: self.name.deep_view(),
            location: self.location.deep_view(),
            description: self.description.deep_view(),
        }
    }
}

impl View for SensorMetadata {
    type V = SensorMetadataView;

    open spec fn view(&self) -> SensorMetadataView {
        self.deep_view()
    }
}

impl Clone for SensorMetadata {
    fn clone(&self) -> (r: Self)
        ensures
            r@ == self@,
    {
        let name = self.name.clone();
        let location = self.location.clone();
        let description = self.description.clone();
        SensorMetadata { name, location, description }
    }
}

impl SensorMetadataView {
    /// The fields of an object after this record was written behind `before`.
    #[verifier::opaque]
    pub open spec fn fields_after(self, before: Fields) -> Fields {
        before
            + maybe("name"@, self.name)
            + maybe("location"@, self.location)
            + maybe("description"@, self.description)
    }

    /// The fields that stand for this record.
    pub open spec fn fields(self) -> Fields {
        self.fields_after(Seq::empty())
    }

    /// The record that the fields of an object stand for, or the error of the
    /// first of its fields, in their order here, that cannot be read.
    #[verifier::opaque]
    pub open spec fn from_fields(fields: Fields) -> Result<Self, DecodeError> {
        let name = optional::<Seq<char>>(fields, "name");
        let location = optional::<Seq<char>>(fields, "location");
        let description = optional::<Seq<char>>(fields, "description");
        if name is Err {
            Err(name->Err_0)
        } else if location is Err {
            Err(location->Err_0)
        } else if description is Err {
            Err(description->Err_0)
        } else {
            Ok(SensorMetadataView {
                name: name->Ok_0,
                location: location->Ok_0,
                description: description->Ok_0,
            })
        }
    }

    /// What the written record holds under each of its keys: the tree of a
    /// value that is set, and nothing for one that is left out.
    pub proof fn lemma_fields(self)
        ensures
            lookup(self.fields(), "name"@) == written(self.name),
            lookup(self.fields(), "location"@) == written(self.location),
            lookup(self.fields(), "description"@) == written(self.description),
    {
        broadcast use group_lookup;

        reveal(SensorMetadataView::fields_after);
        reveal_strlit("name");
        reveal_strlit("location");
        reveal_strlit("description");
    }

    /// Fields that hold under each key of this record what the record writes
    /// there stand for this record.
    pub proof fn lemma_from_fields(self, fields: Fields)
        requires
            self.valid(),
            lookup(fields, "name"@) == written(self.name),
            lookup(fields, "location"@) == written(self.location),
            lookup(fields, "description"@) == written(self.description),
        ensures
            Self::from_fields(fields) == Ok::<Self, DecodeError>(self),
    {
        reveal(SensorMetadataView::from_fields);
        lemma_optional(fields, "name", self.name);
        lemma_optional(fields, "location", self.location);
        lemma_optional(fields, "description", self.description);
    }
}

impl Model for SensorMetadataView {
    open spec fn encode(self) -> ValueView {
        ValueView::Object(self.fields())
    }

    open spec fn decode(v: ValueView) -> Result<Self, DecodeError> {
        match v {
            ValueView::Object(fields) => Self::from_fields(fields),
            _ => Err(DecodeError::InvalidType),
        }
    }

    open spec fn valid(self) -> bool {
        true
    }

    proof fn lemma_round_trip(self) {
        self.lemma_fields();
        self.lemma_from_fields(self.fields());
    }
}

impl SensorMetadata {
    /// Appends the fields that stand for this record.
    pub fn put_fields(&self, fields: &mut Vec<(String, Value)>)
        ensures
            final(fields).deep_view() == self@.fields_after(old(fields).deep_view()),
    {
        reveal(SensorMetadataView::fields_after);
        put_some(fields, "name", &self.name);
        put_some(fields, "location", &self.location);
        put_some(fields, "description", &self.description);
    }

    /// Reads the record that the fields of an object stand for.
    pub fn from_fields(fields: &Vec<(String, Value)>) -> (r: Result<Self, DecodeError>)
        ensures
            decoded(r, SensorMetadataView::from_fields(fields.deep_view())),
    {
        reveal(SensorMetadataView::from_fields);
        let name = get_some::<String>(fields, "name")?;
        let location = get_some::<String>(fields, "location")?;
        let description = get_some::<String>(fields, "description")?;
        Ok(SensorMetadata { name, location, description })
    }
}

impl Codec for SensorMetadata {
    fn to_value(&self) -> (r: Value) {
        broadcast use group_value_view;

        let mut fields: Vec<(String, Value)> = Vec::new();
        assert(fields.deep_view() =~= Seq::empty());
        self.put_fields(&mut fields);
        Value::Object(fields)
    }

    fn from_value(v: &Value) -> (r: Result<Self, DecodeError>) {
        broadcast use group_value_view;

        match v {
            Value::Object(fields) => Self::from_fields(fields),
            _ => Err(DecodeError::InvalidType),
        }
    }
}

/// What is known of a sensor that has to say where it is.
#[derive(Debug, Default, PartialEq, Eq)]
pub struct SensorMetadataWithLocation {
    pub name: Option<String>,
    pub location: String,
    pub description: Option<String>,
}

/// The mathematical model of a [`SensorMetadataWithLocation`].
pub struct SensorMetadataWithLocationView {
    pub name: Option<Seq<char>>,
    pub location: Seq<char>,
    pub description: Option<Seq<char>>,
}

impl DeepView for SensorMetadataWithLocation {
    type V = SensorMetadataWithLocationView;

    open spec fn deep_view(&self) -> SensorMetadataWithLocationView {
        SensorMetadataWithLocationView {
            name: self.name.deep_view(),
            location: self.location.deep_view(),
            description: self.description.deep_view(),
        }
    }
}

impl View for SensorMetadataWithLocation {
    type V = SensorMetadataWithLocationView;

    open spec fn view(&self) -> SensorMetadataWithLocationView {
        self.deep_view()
    }
}

impl Clone for SensorMetadataWithLocation {
    fn clone(&self) -> (r: Self)
        ensures
            r@ == self@,
    {
        let name = self.name.clone();
        let location = self.location.clone();
        let description = self.description.clone();
        SensorMetadataWithLocation { name, location, description }
    }
}

impl SensorMetadataWithLocationView {
    /// The fields of an object after this record was written behind `before`.
    #[verifier::opaque]
    pub open spec fn fields_after(self, before: Fields) -> Fields {
        before
            + maybe("name"@, self.name)
            + one("location"@, self.location.encode())
            + maybe("description"@, self.description)
    }

    /// The fields that stand for this record.
    pub open spec fn fields(self) -> Fields {
        self.fields_after(Seq::empty())
    }

    /// The record that the fields of an object stand for, or the error of the
    /// first of its fields, in their order here, that cannot be read.
    #[verifier::opaque]
    pub open spec fn from_fields(fields: Fields) -> Result<Self, DecodeError> {
        let name = optional::<Seq<char>>(fields, "name");
        let location = required::<Seq<char>>(fields, "location");
        let description = optional::<Seq<char>>(fields, "description");
        if name is Err {
            Err(name->Err_0)
        } else if location is Err {
            Err(location->Err_0)
        } else if description is Err {
            Err(description->Err_0)
        } else {
            Ok(SensorMetadataWithLocationView {
                name: name->Ok_0,
                location: location->Ok_0,
                description: description->Ok_0,
            })
        }
    }

    /// What the written record holds under each of its keys: the tree of a
    /// value that is set, and nothing for one that is left out.
    pub proof fn lemma_fields(self)
        ensures
            lookup(self.fields(), "name"@) == written(self.name),
            lookup(self.fields(), "location"@) == Some(self.location.encode()),
            lookup(self.fields(), "description"@) == written(self.description),
    {
        broadcast use group_lookup;

        reveal(SensorMetadataWithLocationView::fields_after);
        reveal_strlit("name");
        reveal_strlit("location");
        reveal_strlit("description");
    }

    /// Fields that hold under each key of this record what the record writes
    /// there stand for this record.
    pub proof fn lemma_from_fields(self, fields: Fields)
        requires
            self.valid(),
            lookup(fields, "name"@) == written(self.name),
            lookup(fields, "location"@) == Some(self.location.encode()),
            lookup(fields, "description"@) == written(self.description),
        ensures
            Self::from_fields(fields) == Ok::<Self, DecodeError>(self),
    {
        reveal(SensorMetadataWithLocationView::from_fields);
        lemma_optional(fields, "name", self.name);
        lemma_required(fields, "location", self.location);
        lemma_optional(fields, "description", self.description);
    }
}

impl Model for SensorMetadataWithLocationView {
    open spec fn encode(self) -> ValueView {
        ValueView::Object(self.fields())
    }

    open spec fn decode(v: ValueView) -> Result<Self, DecodeError> {
        match v {
            ValueView::Object(fields) => Self::from_fields(fields),
            _ => Err(DecodeError::InvalidType),
        }
    }

    open spec fn valid(self) -> bool {
        true
    }

    proof fn lemma_round_trip(self) {
        self.lemma_fields();
        self.lemma_from_fields(self.fields());
    }
}

impl SensorMetadataWithLocation {
    /// Appends the fields that stand for this record.
    pub fn put_fields(&self, fields: &mut Vec<(String, Value)>)
        ensures
            final(fields).deep_view() == self@.fields_after(old(fields).deep_view()),
    {
        reveal(SensorMetadataWithLocationView::fields_after);
        put_some(fields, "name", &self.name);
        put(fields, "location", &self.location);
        put_some(fields, "description", &self.description);
    }

    /// Reads the record that the fields of an object stand for.
    pub fn from_fields(fields: &Vec<(String, Value)>) -> (r: Result<Self, DecodeError>)
        ensures
            decoded(r, SensorMetadataWithLocationView::from_fields(fields.deep_view())),
    {
        reveal(SensorMetadataWithLocationView::from_fields);
        let name = get_some::<String>(fields, "name")?;
        let location = get::<String>(fields, "location")?;
        let description = get_some::<String>(fields, "description")?;
        Ok(SensorMetadataWithLocation { name, location, description })
    }
}

impl Codec for SensorMetadataWithLocation {
    fn to_value(&self) -> (r: Value) {
        broadcast use group_value_view;

        let mut fields: Vec<(String, Value)> = Vec::new();
        assert(fields.deep_view() =~= Seq::empty());
        self.put_fields(&mut fields);
        Value::Object(fields)
    }

    fn from_value(v: &Value) -> (r: Result<Self, DecodeError>) {
        broadcast use group_value_view;

        match v {
            Value::Object(fields) => Self::from_fields(fields),
            _ => Err(DecodeError::InvalidType),
        }
    }
}

/// The readings of all sensors of a space, by their kind.
#[derive(Debug, Default, PartialEq, Eq)]
pub struct Sensors {
    pub temperature: Vec<TemperatureSensor>,
    pub door_locked: Vec<DoorLockedSensor>,
    pub barometer: Vec<BarometerSensor>,
    pub radiation: Option<RadiationSensors>,
    pub humidity: Vec<HumiditySensor>,
    pub beverage_supply: Vec<BeverageSupplySensor>,
    pub power_consumption: Vec<PowerConsumptionSensor>,
    pub wind: Vec<WindSensor>,
    pub network_connections: Vec<NetworkConnectionsSensor>,
    pub account_balance: Vec<AccountBalanceSensor>,
    pub total_member_count: Vec<TotalMemberCountSensor>,
    pub people_now_present: Vec<PeopleNowPresentSensor>,
    pub network_traffic: Vec<NetworkTrafficSensor>,
}

/// The mathematical model of a [`Sensors`].
pub struct SensorsView {
    pub temperature: Seq<TemperatureSensorView>,
    pub door_locked: Seq<DoorLockedSensorView>,
    pub barometer: Seq<BarometerSensorView>,
    pub radiation: Option<RadiationSensorsView>,
    pub humidity: Seq<HumiditySensorView>,
    pub beverage_supply: Seq<BeverageSupplySensorView>,
    pub power_consumption: Seq<PowerConsumptionSensorView>,
    pub wind: Seq<WindSensorView>,
    pub network_connections: Seq<NetworkConnectionsSensorView>,
    pub account_balance: Seq<AccountBalanceSensorView>,
    pub total_member_count: Seq<TotalMemberCountSensorView>,
    pub people_now_present: Seq<PeopleNowPresentSensorView>,
    pub network_traffic: Seq<NetworkTrafficSensorView>,
}

impl DeepView for Sensors {
    type V = SensorsView;

    open spec fn deep_view(&self) -> SensorsView {
        SensorsView {
            temperature: self.temperature.deep_view(),
            door_locked: self.door_locked.deep_view(),
            barometer: self.barometer.deep_view(),
            radiation: self.radiation.deep_view(),
            humidity: self.humidity.deep_view(),
            beverage_supply: self.beverage_supply.deep_view(),
            power_consumption: self.power_consumption.deep_view(),
            wind: self.wind.deep_view(),
            network_connections: self.network_connections.deep_view(),
            account_balance: self.account_balance.deep_view(),
            total_member_count: self.total_member_count.deep_view(),
            people_now_present: self.people_now_present.deep_view(),
            network_traffic: self.network_traffic.deep_view(),
        }
    }
}

impl View for Sensors {
    type V = SensorsView;

    open spec fn view(&self) -> SensorsView {
        self.deep_view()
    }
}

impl Clone for Sensors {
    fn clone(&self) -> (r: Self)
        ensures
            r@ == self@,
    {
        let temperature = self.temperature.clone();
        assert(temperature.deep_view() == self.temperature.deep_view());
        let door_locked = self.door_locked.clone();
        assert(door_locked.deep_view() == self.door_locked.deep_view());
        let barometer = self.barometer.clone();
        assert(barometer.deep_view() == self.barometer.deep_view());
        let radiation = self.radiation.clone();
        assert(radiation.deep_view() == self.radiation.deep_view());
        let humidity = self.humidity.clone();
        assert(humidity.deep_view() == self.humidity.deep_view());
        let beverage_supply = self.beverage_supply.clone();
        assert(beverage_supply.deep_view() == self.beverage_supply.deep_view());
        let power_consumption = self.power_consumption.clone();
        assert(power_consumption.deep_view() == self.power_consumption.deep_view());
        let wind = self.wind.clone();
        assert(wind.deep_view() == self.wind.deep_view());
        let network_connections = self.network_connections.clone();
        assert(network_connections.deep_view() == self.network_connections.deep_view());
        let account_balance = self.account_balance.clone();
        assert(account_balance.deep_view() == self.account_balance.deep_view());
        let total_member_count = self.total_member_count.clone();
        assert(total_member_count.deep_view() == self.total_member_count.deep_view());
        let people_now_present = self.people_now_present.clone();
        assert(people_now_present.deep_view() == self.people_now_present.deep_view());
        let network_traffic = self.network_traffic.clone();
        assert(network_traffic.deep_view() == self.network_traffic.deep_view());
        Sensors {
            temperature,
            door_locked,
            barometer,
            radiation,
            humidity,
            beverage_supply,
            power_consumption,
            wind,
            network_connections,
            account_balance,
            total_member_count,
            people_now_present,
            network_traffic,
        }
    }
}

impl SensorsView {
    /// The fields of an object after this record was written behind `before`.
    #[verifier::opaque]
    pub open spec fn fields_after(self, before: Fields) -> Fields {
        before
            + unless_empty("temperature"@, self.temperature)
            + unless_empty("door_locked"@, self.door_locked)
            + unless_empty("barometer"@, self.barometer)
            + maybe("radiation"@, self.radiation)
            + unless_empty("humidity"@, self.humidity)
            + unless_empty("beverage_supply"@, self.beverage_supply)
            + unless_empty("power_consumption"@, self.power_consumption)
            + unless_empty("wind"@, self.wind)
            + unless_empty("network_connections"@, self.network_connections)
            + unless_empty("account_balance"@, self.account_balance)
            + unless_empty("total_member_count"@, self.total_member_count)
            + unless_empty("people_now_present"@, self.people_now_present)
            + unless_empty("network_traffic"@, self.network_traffic)
    }

    /// The fields that stand for this record.
    pub open spec fn fields(self) -> Fields {
        self.fields_after(Seq::empty())
    }

    /// The record that the fields of an object stand for, or the error of the
    /// first of its fields, in their order here, that cannot be read.
    #[verifier::opaque]
    pub open spec fn from_fields(fields: Fields) -> Result<Self, DecodeError> {
        let temperature = listed::<TemperatureSensorView>(fields, "temperature");
        let door_locked = listed::<DoorLockedSensorView>(fields, "door_locked");
        let barometer = listed::<BarometerSensorView>(fields, "barometer");
        let radiation = optional::<RadiationSensorsView>(fields, "radiation");
        let humidity = listed::<HumiditySensorView>(fields, "humidity");
        let beverage_supply = listed::<BeverageSupplySensorView>(fields, "beverage_supply");
        let power_consumption = listed::<PowerConsumptionSensorView>(fields, "power_consumption");
        let wind = listed::<WindSensorView>(fields, "wind");
        let network_connections = listed::<NetworkConnectionsSensorView>(
            fields,
            "network_connections",
        );
        let account_balance = listed::<AccountBalanceSensorView>(fields, "account_balance");
        let total_member_count = listed::<TotalMemberCountSensorView>(fields, "total_member_count");
        let people_now_present = listed::<PeopleNowPresentSensorView>(fields, "people_now_present");
        let network_traffic = listed::<NetworkTrafficSensorView>(fields, "network_traffic");
        if temperature is Err {
            Err(temperature->Err_0)
        } else if door_locked is Err {
            Err(door_locked->Err_0)
        } else if barometer is Err {
            Err(barometer->Err_0)
        } else if radiation is Err {
            Err(radiation->Err_0)
        } else if humidity is Err {
            Err(humidity->Err_0)
        } else if beverage_supply is Err {
            Err(beverage_supply->Err_0)
        } else if power_consumption is Err {
            Err(power_consumption->Err_0)
        } else if wind is Err {
            Err(wind->Err_0)
        } else if network_connections is Err {
            Err(network_connections->Err_0)
        } else if account_balance is Err {
            Err(account_balance->Err_0)
        } else if total_member_count is Err {
            Err(total_member_count->Err_0)
        } else if people_now_present is Err {
            Err(people_now_present->Err_0)
        } else if network_traffic is Err {
            Err(network_traffic->Err_0)
        } else {
            Ok(SensorsView {
                temperature: temperature->Ok_0,
                door_locked: door_locked->Ok_0,
                barometer: barometer->Ok_0,
                radiation: radiation->Ok_0,
                humidity: humidity->Ok_0,
                beverage_supply: beverage_supply->Ok_0,
                power_consumption: power_consumption->Ok_0,
                wind: wind->Ok_0,
                network_connections: network_connections->Ok_0,
                account_balance: account_balance->Ok_0,
                total_member_count: total_member_count->Ok_0,
                people_now_present: people_now_present->Ok_0,
                network_traffic: network_traffic->Ok_0,
            })
        }
    }

    /// What the written record holds under each of its keys: the tree of a
    /// value that is set, and nothing for one that is left out.
    pub proof fn lemma_fields(self)
        ensures
            lookup(self.fields(), "temperature"@) == written_list(self.temperature),
            lookup(self.fields(), "door_locked"@) == written_list(self.door_locked),
            lookup(self.fields(), "barometer"@) == written_list(self.barometer),
            lookup(self.fields(), "radiation"@) == written(self.radiation),
            lookup(self.fields(), "humidity"@) == written_list(self.humidity),
            lookup(self.fields(), "beverage_supply"@) == written_list(self.beverage_supply),
            lookup(self.fields(), "power_consumption"@) == written_list(self.power_consumption),
            lookup(self.fields(), "wind"@) == written_list(self.wind),
            lookup(self.fields(), "network_connections"@) == written_list(self.network_connections),
            lookup(self.fields(), "account_balance"@) == written_list(self.account_balance),
            lookup(self.fields(), "total_member_count"@) == written_list(self.total_member_count),
            lookup(self.fields(), "people_now_present"@) == written_list(self.people_now_present),
            lookup(self.fields(), "network_traffic"@) == written_list(self.network_traffic),
    {
        broadcast use group_lookup;

        reveal(SensorsView::fields_after);
        reveal_strlit("temperature");
        reveal_strlit("door_locked");
        reveal_strlit("barometer");
        reveal_strlit("radiation");
        reveal_strlit("humidity");
        reveal_strlit("beverage_supply");
        reveal_strlit("power_consumption");
        reveal_strlit("wind");
        reveal_strlit("network_connections");
        reveal_strlit("account_balance");
        reveal_strlit("total_member_count");
        reveal_strlit("people_now_present");
        reveal_strlit("network_traffic");
    }

    /// Fields that hold under each key of this record what the record writes
    /// there stand for this record.
    pub proof fn lemma_from_fields(self, fields: Fields)
        requires
            self.valid(),
            lookup(fields, "temperature"@) == written_list(self.temperature),
            lookup(fields, "door_locked"@) == written_list(self.door_locked),
            lookup(fields, "barometer"@) == written_list(self.barometer),
            lookup(fields, "radiation"@) == written(self.radiation),
            lookup(fields, "humidity"@) == written_list(self.humidity),
            lookup(fields, "beverage_supply"@) == written_list(self.beverage_supply),
            lookup(fields, "power_consumption"@) == written_list(self.power_consumption),
            lookup(fields, "wind"@) == written_list(self.wind),
            lookup(fields, "network_connections"@) == written_list(self.network_connections),
            lookup(fields, "account_balance"@) == written_list(self.account_balance),
            lookup(fields, "total_member_count"@) == written_list(self.total_member_count),
            lookup(fields, "people_now_present"@) == written_list(self.people_now_present),
            lookup(fields, "network_traffic"@) == written_list(self.network_traffic),
        ensures
            Self::from_fields(fields) == Ok::<Self, DecodeError>(self),
    {
        reveal(SensorsView::from_fields);
        lemma_listed(fields, "temperature", self.temperature);
        lemma_listed(fields, "door_locked", self.door_locked);
        lemma_listed(fields, "barometer", self.barometer);
        lemma_optional(fields, "radiation", self.radiation);
        lemma_listed(fields, "humidity", self.humidity);
        lemma_listed(fields, "beverage_supply", self.beverage_supply);
        lemma_listed(fields, "power_consumption", self.power_consumption);
        lemma_listed(fields, "wind", self.wind);
        lemma_listed(fields, "network_connections", self.network_connections);
        lemma_listed(fields, "account_balance", self.account_balance);
        lemma_listed(fields, "total_member_count", self.total_member_count);
        lemma_listed(fields, "people_now_present", self.people_now_present);
        lemma_listed(fields, "network_traffic", self.network_traffic);
    }
}

impl Model for SensorsView {
    open spec fn encode(self) -> ValueView {
        ValueView::Object(self.fields())
    }

    open spec fn decode(v: ValueView) -> Result<Self, DecodeError> {
        match v {
            ValueView::Object(fields) => Self::from_fields(fields),
            _ => Err(DecodeError::InvalidType),
        }
    }

    open spec fn valid(self) -> bool {
        &&& self.temperature.valid()
        &&& self.door_locked.valid()
        &&& self.barometer.valid()
        &&& self.radiation matches Some(x) ==> x.valid()
        &&& self.humidity.valid()
        &&& self.beverage_supply.valid()
        &&& self.power_consumption.valid()
        &&& self.wind.valid()
        &&& self.network_connections.valid()
        &&& self.account_balance.valid()
        &&& self.total_member_count.valid()
        &&& self.people_now_present.valid()
        &&& self.network_traffic.valid()
    }

    proof fn lemma_round_trip(self) {
        self.lemma_fields();
        self.lemma_from_fields(self.fields());
    }
}

impl Sensors {
    /// Appends the fields that stand for this record.
    pub fn put_fields(&self, fields: &mut Vec<(String, Value)>)
        ensures
            final(fields).deep_view() == self@.fields_after(old(fields).deep_view()),
    {
        reveal(SensorsView::fields_after);
        put_list(fields, "temperature", &self.temperature);
        put_list(fields, "door_locked", &self.door_locked);
        put_list(fields, "barometer", &self.barometer);
        put_some(fields, "radiation", &self.radiation);
        put_list(fields, "humidity", &self.humidity);
        put_list(fields, "beverage_supply", &self.beverage_supply);
        put_list(fields, "power_consumption", &self.power_consumption);
        put_list(fields, "wind", &self.wind);
        put_list(fields, "network_connections", &self.network_connections);
        put_list(fields, "account_balance", &self.account_balance);
        put_list(fields, "total_member_count", &self.total_member_count);
        put_list(fields, "people_now_present", &self.people_now_present);
        put_list(fields, "network_traffic", &self.network_traffic);
    }

    /// Reads the record that the fields of an object stand for.
    pub fn from_fields(fields: &Vec<(String, Value)>) -> (r: Result<Self, DecodeError>)
        ensures
            decoded(r, SensorsView::from_fields(fields.deep_view())),
    {
        reveal(SensorsView::from_fields);
        let temperature = get_list::<TemperatureSensor>(fields, "temperature")?;
        let door_locked = get_list::<DoorLockedSensor>(fields, "door_locked")?;
        let barometer = get_list::<BarometerSensor>(fields, "barometer")?;
        let radiation = get_some::<RadiationSensors>(fields, "radiation")?;
        let humidity = get_list::<HumiditySensor>(fields, "humidity")?;
        let beverage_supply = get_list::<BeverageSupplySensor>(fields, "beverage_supply")?;
        let power_consumption = get_list::<PowerConsumptionSensor>(fields, "power_consumption")?;
        let wind = get_list::<WindSensor>(fields, "wind")?;
        let network_connections = get_list::<NetworkConnectionsSensor>(
            fields,
            "network_connections",
        )?;
        let account_balance = get_list::<AccountBalanceSensor>(fields, "account_balance")?;
        let total_member_count = get_list::<TotalMemberCountSensor>(fields, "total_member_count")?;
        let people_now_present = get_list::<PeopleNowPresentSensor>(fields, "people_now_present")?;
        let network_traffic = get_list::<NetworkTrafficSensor>(fields, "network_traffic")?;
        Ok(Sensors {
            temperature,
            door_locked,
            barometer,
            radiation,
            humidity,
            beverage_supply,
            power_consumption,
            wind,
            network_connections,
            account_balance,
            total_member_count,
            people_now_present,
            network_traffic,
        })
    }
}

impl Codec for Sensors {
    fn to_value(&self) -> (r: Value) {
        broadcast use group_value_view;

        let mut fields: Vec<(String, Value)> = Vec::new();
        assert(fields.deep_view() =~= Seq::empty());
        self.put_fields(&mut fields);
        Value::Object(fields)
    }

    fn from_value(v: &Value) -> (r: Result<Self, DecodeError>) {
        broadcast use group_value_view;

        match v {
            Value::Object(fields) => Self::from_fields(fields),
            _ => Err(DecodeError::InvalidType),
        }
    }
}

/// The older name of [`SensorMetadataWithLocation`].
pub type LocalisedSensorMetadata = SensorMetadataWithLocation;

impl SensorMetadataView {
    /// The same with a location that has to be there, where there is one.
    pub open spec fn localised(self) -> Option<SensorMetadataWithLocationView> {
        match self.location {
            Some(location) => Some(
                SensorMetadataWithLocationView {
                    name: self.name,
                    location,
                    description: self.description,
                },
            ),
            None => None,
        }
    }
}

impl SensorMetadata {
    /// The same as what is known of a sensor that has to say where it is. That
    /// is an error where no location is set.
    pub fn try_into(self) -> (r: Result<SensorMetadataWithLocation, &'static str>)
        ensures
            match self@.localised() {
                Some(localised) => r matches Ok(metadata) && metadata@ == localised,
                None => r matches Err(message) && message@
                    == "No location specified when one is required"@,
            },
    {
        match self.location {
            Some(location) => Ok(
                SensorMetadataWithLocation {
                    name: self.name,
                    location,
                    description: self.description,
                },
            ),
            None => Err("No location specified when one is required"),
        }
    }
}

/// Why a template makes no sensor of a reading.
#[derive(Debug, Clone, Copy, PartialEq, Eq, Structural)]
pub enum SensorTemplateError {
    /// The reading is no whole number.
    BadInteger,
    /// The reading is no number.
    BadFloat,
    /// The reading is neither `true` nor `false`.
    BadBool,
}

impl SensorTemplateError {
    /// What is said of the error.
    pub open spec fn message(self) -> Seq<char> {
        match self {
            SensorTemplateError::BadInteger => "sensor integer value cannot be parsed"@,
            SensorTemplateError::BadFloat => "sensor float value cannot be parsed"@,
            SensorTemplateError::BadBool => "sensor boolean value cannot be parsed"@,
        }
    }

    /// What is said of the error.
    pub fn to_string(&self) -> (r: String)
        ensures
            r@ == self.message(),
    {
        match self {
            SensorTemplateError::BadInteger => "sensor integer value cannot be parsed".to_owned(),
            SensorTemplateError::BadFloat => "sensor float value cannot be parsed".to_owned(),
            SensorTemplateError::BadBool => "sensor boolean value cannot be parsed".to_owned(),
        }
    }
}

/// Whether a result holds the sensor, or the error, that the model names.
pub open spec fn made<T: DeepView>(
    r: Result<T, SensorTemplateError>,
    m: Result<T::V, SensorTemplateError>,
) -> bool {
    match r {
        Ok(x) => m == Ok::<T::V, SensorTemplateError>(x.deep_view()),
        Err(e) => m == Err::<T::V, SensorTemplateError>(e),
    }
}

/// Whether a template has done to the sensors what the model names: the
/// sensors are those that it names, or, with its error, those that were there.
pub open spec fn registered(
    r: Result<(), SensorTemplateError>,
    before: Sensors,
    after: Sensors,
    m: Result<SensorsView, SensorTemplateError>,
) -> bool {
    match m {
        Ok(sensors) => r is Ok && after@ == sensors,
        Err(e) => r == Err::<(), SensorTemplateError>(e) && after@ == before@,
    }
}

/// The sensors that the model names, or those that were there where it
/// names an error.
pub open spec fn kept(
    before: SensorsView,
    m: Result<SensorsView, SensorTemplateError>,
) -> SensorsView {
    match m {
        Ok(sensors) => sensors,
        Err(_) => before,
    }
}

/// A sensor that a template of the type `T` makes of the text of a reading.
pub trait FromSensorTemplate<T: DeepView>: DeepView + Sized {
    /// The sensor that a template makes of the text of a reading, or the reason
    /// why it makes none.
    spec fn from_reading(
        template: T::V,
        value: Seq<char>,
    ) -> Result<Self::V, SensorTemplateError>;

    /// Makes the sensor.
    fn try_from_template(template: &T, value: &str) -> (r: Result<Self, SensorTemplateError>)
        ensures
            made(r, Self::from_reading(template.deep_view(), value@)),
    ;
}

/// A sensor without its reading, which can add the sensor that it makes of a
/// reading to the sensors of a space.
pub trait SensorTemplate: DeepView + Send + Sync {
    /// The sensors after the sensor that the template makes of the text of a
    /// reading was added, or the reason why it makes none.
    spec fn registered(
        template: Self::V,
        value: Seq<char>,
        sensors: SensorsView,
    ) -> Result<SensorsView, SensorTemplateError>;

    /// Adds the sensor. Where the template makes none, the sensors stay as
    /// they are.
    fn try_to_sensor(
        &self,
        value_str: &str,
        sensors: &mut Sensors,
    ) -> (r: Result<(), SensorTemplateError>)
        ensures
            registered(r, *old(sensors), *final(sensors), Self::registered(
                self.deep_view(),
                value_str@,
                old(sensors)@,
            )),
    ;

    /// Adds the sensor, and passes over a reading of which the template makes
    /// none: one reading that cannot be read does not stand in the way of the
    /// others.
    fn to_sensor(&self, value_str: &str, sensors: &mut Sensors)
        ensures
            final(sensors)@ == kept(old(sensors)@, Self::registered(
                self.deep_view(),
                value_str@,
                old(sensors)@,
            )),
    {
        let _ = self.try_to_sensor(value_str, sensors);
    }
}

} // verus!
