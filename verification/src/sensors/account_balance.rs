//! Account balance sensors.

use crate::codec::{
    decoded, get, group_lookup, lemma_required, lookup, one, put, required, written, Codec,
    DecodeError, Fields, Model,
};
use crate::number::Double;
use crate::sensors::{
    kept, made, registered, SensorMetadata, SensorMetadataView, SensorTemplateError, Sensors,
    SensorsView,
};
use crate::value::{group_value_view, Value, ValueView};
use vstd::prelude::*;

verus! {

/// What is in an account.
#[derive(Debug, Default, PartialEq, Eq)]
pub struct AccountBalanceSensor {
    pub metadata: SensorMetadata,
    pub unit: String,
    pub value: Double,
}

/// The mathematical model of a [`AccountBalanceSensor`].
pub struct AccountBalanceSensorView {
    pub metadata: SensorMetadataView,
    pub unit: Seq<char>,
    pub value: Double,
}

impl DeepView for AccountBalanceSensor {
    type V = AccountBalanceSensorView;

    open spec fn deep_view(&self) -> AccountBalanceSensorView {
        AccountBalanceSensorView {
            metadata: self.metadata.deep_view(),
            unit: self.unit.deep_view(),
            value: self.value.deep_view(),
        }
    }
}

impl View for AccountBalanceSensor {
    type V = AccountBalanceSensorView;

    open spec fn view(&self) -> AccountBalanceSensorView {
        self.deep_view()
    }
}

impl Clone for AccountBalanceSensor {
    fn clone(&self) -> (r: Self)
        ensures
            r@ == self@,
    {
        let metadata = self.metadata.clone();
        let unit = self.unit.clone();
        let value = self.value.clone();
        AccountBalanceSensor { metadata, unit, value }
    }
}

impl AccountBalanceSensorView {
    /// The fields of an object after this record was written behind `before`.
    #[verifier::opaque]
    pub open spec fn fields_after(self, before: Fields) -> Fields {
        self.metadata.fields_after(before)
            + one("unit"@, self.unit.encode())
            + one("value"@, self.value.encode())
    }

    /// The fields that stand for this record.
    pub open spec fn fields(self) -> Fields {
        self.fields_after(Seq::empty())
    }

    /// The record that the fields of an object stand for, or the error of the
    /// first of its fields, in their order here, that cannot be read.
    #[verifier::opaque]
    pub open spec fn from_fields(fields: Fields) -> Result<Self, DecodeError> {
        let metadata = SensorMetadataView::from_fields(fields);
        let unit = required::<Seq<char>>(fields, "unit");
        let value = required::<Double>(fields, "value");
        if metadata is Err {
            Err(metadata->Err_0)
        } else if unit is Err {
            Err(unit->Err_0)
        } else if value is Err {
            Err(value->Err_0)
        } else {
            Ok(AccountBalanceSensorView {
                metadata: metadata->Ok_0,
                unit: unit->Ok_0,
                value: value->Ok_0,
            })
        }
    }

    /// What the written record holds under each of its keys: the tree of a
    /// value that is set, and nothing for one that is left out.
    pub proof fn lemma_fields(self)
        ensures
            lookup(self.fields(), "name"@) == written(self.metadata.name),
            lookup(self.fields(), "location"@) == written(self.metadata.location),
            lookup(self.fields(), "description"@) == written(self.metadata.description),
            lookup(self.fields(), "unit"@) == Some(self.unit.encode()),
            lookup(self.fields(), "value"@) == Some(self.value.encode()),
    {
        broadcast use group_lookup;

        reveal(AccountBalanceSensorView::fields_after);
        reveal(SensorMetadataView::fields_after);
        reveal_strlit("name");
        reveal_strlit("location");
        reveal_strlit("description");
        reveal_strlit("unit");
        reveal_strlit("value");
    }

    /// Fields that hold under each key of this record what the record writes
    /// there stand for this record.
    pub proof fn lemma_from_fields(self, fields: Fields)
        requires
            self.valid(),
            lookup(fields, "name"@) == written(self.metadata.name),
            lookup(fields, "location"@) == written(self.metadata.location),
            lookup(fields, "description"@) == written(self.metadata.description),
            lookup(fields, "unit"@) == Some(self.unit.encode()),
            lookup(fields, "value"@) == Some(self.value.encode()),
        ensures
            Self::from_fields(fields) == Ok::<Self, DecodeError>(self),
    {
        reveal(AccountBalanceSensorView::from_fields);
        self.metadata.lemma_from_fields(fields);
        lemma_required(fields, "unit", self.unit);
        lemma_required(fields, "value", self.value);
    }
}

impl Model for AccountBalanceSensorView {
    open spec fn encode(self) -> ValueView {
        ValueView::Object(self.fields())
    }

    open spec fn decode(v: ValueView) -> Result<Self, DecodeError> {
        match v {
            ValueView::Object(fields) => Self::from_fields(fields),
            _ => Err(DecodeError::InvalidType),
        }
    }

    open spec fn valid(self) -> bool {
        &&& self.metadata.valid()
        &&& self.value.valid()
    }

    proof fn lemma_round_trip(self) {
        self.lemma_fields();
        self.lemma_from_fields(self.fields());
    }
}

impl AccountBalanceSensor {
    /// Appends the fields that stand for this record.
    pub fn put_fields(&self, fields: &mut Vec<(String, Value)>)
        ensures
            final(fields).deep_view() == self@.fields_after(old(fields).deep_view()),
    {
        reveal(AccountBalanceSensorView::fields_after);
        self.metadata.put_fields(fields);
        put(fields, "unit", &self.unit);
        put(fields, "value", &self.value);
    }

    /// Reads the record that the fields of an object stand for.
    pub fn from_fields(fields: &Vec<(String, Value)>) -> (r: Result<Self, DecodeError>)
        ensures
            decoded(r, AccountBalanceSensorView::from_fields(fields.deep_view())),
    {
        reveal(AccountBalanceSensorView::from_fields);
        let metadata = SensorMetadata::from_fields(fields)?;
        let unit = get::<String>(fields, "unit")?;
        let value = get::<Double>(fields, "value")?;
        Ok(AccountBalanceSensor { metadata, unit, value })
    }
}

impl Codec for AccountBalanceSensor {
    fn to_value(&self) -> (r: Value) {
        broadcast use group_value_view;

        let mut fields: Vec<(String, Value)> = Vec::new();
        assert(fields.deep_view() =~= Seq::empty());
        self.put_fields(&mut fields);
        Value::Object(fields)
    }

    fn from_value(v: &Value) -> (r: Result<Self, DecodeError>) {
        broadcast use group_value_view;

        match v {
            Value::Object(fields) => Self::from_fields(fields),
            _ => Err(DecodeError::InvalidType),
        }
    }
}

/// An account balance sensor without its reading.
#[derive(Debug)]
pub struct AccountBalanceSensorTemplate {
    pub metadata: SensorMetadata,
    pub unit: String,
}

/// The mathematical model of a [`AccountBalanceSensorTemplate`].
pub struct AccountBalanceSensorTemplateView {
    pub metadata: SensorMetadataView,
    pub unit: Seq<char>,
}

impl DeepView for AccountBalanceSensorTemplate {
    type V = AccountBalanceSensorTemplateView;

    open spec fn deep_view(&self) -> AccountBalanceSensorTemplateView {
        AccountBalanceSensorTemplateView {
            metadata: self.metadata.deep_view(),
            unit: self.unit.deep_view(),
        }
    }
}

impl View for AccountBalanceSensorTemplate {
    type V = AccountBalanceSensorTemplateView;

    open spec fn view(&self) -> AccountBalanceSensorTemplateView {
        self.deep_view()
    }
}

impl Clone for AccountBalanceSensorTemplate {
    fn clone(&self) -> (r: Self)
        ensures
            r@ == self@,
    {
        let metadata = self.metadata.clone();
        let unit = self.unit.clone();
        AccountBalanceSensorTemplate { metadata, unit }
    }
}

impl AccountBalanceSensorView {
    /// The sensor that a template makes of a reading: the template's fields
    /// and the number that was read. A reading that is no number makes none.
    pub open spec fn from_reading(
        template: AccountBalanceSensorTemplateView,
        value: Option<Double>,
    ) -> Result<Self, SensorTemplateError> {
        match value {
            Some(value) => Ok(
                AccountBalanceSensorView {
                    metadata: template.metadata,
                    unit: template.unit,
                    value,
                },
            ),
            None => Err(SensorTemplateError::BadFloat),
        }
    }

    /// The sensors after the sensor that a template makes of a reading was
    /// added to those of its kind.
    pub open spec fn registered(
        template: AccountBalanceSensorTemplateView,
        value: Option<Double>,
        sensors: SensorsView,
    ) -> Result<SensorsView, SensorTemplateError> {
        match Self::from_reading(template, value) {
            Ok(sensor) => Ok(
                SensorsView { account_balance: sensors.account_balance.push(sensor), ..sensors },
            ),
            Err(e) => Err(e),
        }
    }
}

impl AccountBalanceSensor {
    /// The sensor that `template` makes of a reading. The reading comes as the
    /// number that was read from its text, or as nothing where the text was
    /// no number.
    pub fn try_from_template(
        template: &AccountBalanceSensorTemplate,
        value: Option<Double>,
    ) -> (r: Result<Self, SensorTemplateError>)
        ensures
            made(r, AccountBalanceSensorView::from_reading(template@, value)),
    {
        match value {
            Some(value) => Ok(
                AccountBalanceSensor {
                    metadata: template.metadata.clone(),
                    unit: template.unit.clone(),
                    value,
                },
            ),
            None => Err(SensorTemplateError::BadFloat),
        }
    }
}

impl AccountBalanceSensorTemplate {
    /// Adds the sensor that the template makes of a reading. Where the reading
    /// is no number the sensors stay as they are.
    pub fn try_to_sensor(
        &self,
        value: Option<Double>,
        sensors: &mut Sensors,
    ) -> (r: Result<(), SensorTemplateError>)
        ensures
            registered(r, *old(sensors), *final(sensors), AccountBalanceSensorView::registered(
                self@,
                value,
                old(sensors)@,
            )),
    {
        let sensor = AccountBalanceSensor::try_from_template(self, value)?;
        let ghost before = sensors.account_balance.deep_view();
        sensors.account_balance.push(sensor);
        assert(sensors.account_balance.deep_view() =~= before.push(sensor@));
        Ok(())
    }

    /// Adds the sensor that the template makes of a reading, and leaves the
    /// sensors as they are where the reading is no number.
    pub fn to_sensor(&self, value: Option<Double>, sensors: &mut Sensors)
        ensures
            final(sensors)@ == kept(old(sensors)@, AccountBalanceSensorView::registered(
                self@,
                value,
                old(sensors)@,
            )),
    {
        let _ = self.try_to_sensor(value, sensors);
    }
}

} // verus!
