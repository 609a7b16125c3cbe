//! The place of a space.

use crate::codec::{
    decoded, get, get_some, group_lookup, lemma_optional, lemma_required, lookup, maybe, one,
    optional, put, put_some, required, written, Codec, DecodeError, Fields, Model,
};
use crate::number::Double;
use crate::value::{group_value_view, Value, ValueView};
use vstd::prelude::*;

verus! {

/// Where a space is.
#[derive(Debug, Default, PartialEq, Eq)]
pub struct Location {
    pub address: Option<String>,
    /// The latitude, in degrees.
    pub lat: Double,
    /// The longitude, in degrees.
    pub lon: Double,
    /// The name of the time zone. Known from version 0.14 on.
    pub timezone: Option<String>,
}

/// The mathematical model of a [`Location`].
pub struct LocationView {
    pub address: Option<Seq<char>>,
    pub lat: Double,
    pub lon: Double,
    pub timezone: Option<Seq<char>>,
}

impl DeepView for Location {
    type V = LocationView;

    open spec fn deep_view(&self) -> LocationView {
        LocationView {
            address: self.address.deep_view(),
            lat: self.lat.deep_view(),
            lon: self.lon.deep_view(),
            timezone: self.timezone.deep_view(),
        }
    }
}

impl View for Location {
    type V = LocationView;

    open spec fn view(&self) -> LocationView {
        self.deep_view()
    }
}

impl Clone for Location {
    fn clone(&self) -> (r: Self)
        ensures
            r@ == self@,
    {
        let address = self.address.clone();
        let lat = self.lat.clone();
        let lon = self.lon.clone();
        let timezone = self.timezone.clone();
        Location { address, lat, lon, timezone }
    }
}

impl LocationView {
    /// The fields of an object after this record was written behind `before`.
    #[verifier::opaque]
    pub open spec fn fields_after(self, before: Fields) -> Fields {
        before
            + maybe("address"@, self.address)
            + one("lat"@, self.lat.encode())
            + one("lon"@, self.lon.encode())
            + maybe("timezone"@, self.timezone)
    }

    /// The fields that stand for this record.
    pub open spec fn fields(self) -> Fields {
        self.fields_after(Seq::empty())
    }

    /// The record that the fields of an object stand for, or the error of the
    /// first of its fields, in their order here, that cannot be read.
    #[verifier::opaque]
    pub open spec fn from_fields(fields: Fields) -> Result<Self, DecodeError> {
        let address = optional::<Seq<char>>(fields, "address");
        let lat = required::<Double>(fields, "lat");
        let lon = required::<Double>(fields, "lon");
        let timezone = optional::<Seq<char>>(fields, "timezone");
        if address is Err {
            Err(address->Err_0)
        } else if lat is Err {
            Err(lat->Err_0)
        } else if lon is Err {
            Err(lon->Err_0)
        } else if timezone is Err {
            Err(timezone->Err_0)
        } else {
            Ok(LocationView {
                address: address->Ok_0,
                lat: lat->Ok_0,
                lon: lon->Ok_0,
                timezone: timezone->Ok_0,
            })
        }
    }

    /// What the written record holds under each of its keys: the tree of a
    /// value that is set, and nothing for one that is left out.
    pub proof fn lemma_fields(self)
        ensures
            lookup(self.fields(), "address"@) == written(self.address),
            lookup(self.fields(), "lat"@) == Some(self.lat.encode()),
            lookup(self.fields(), "lon"@) == Some(self.lon.encode()),
            lookup(self.fields(), "timezone"@) == written(self.timezone),
    {
        broadcast use group_lookup;

        reveal(LocationView::fields_after);
        reveal_strlit("address");
        reveal_strlit("lat");
        reveal_strlit("lon");
        reveal_strlit("timezone");
    }

    /// Fields that hold under each key of this record what the record writes
    /// there stand for this record.
    pub proof fn lemma_from_fields(self, fields: Fields)
        requires
            self.valid(),
            lookup(fields, "address"@) == written(self.address),
            lookup(fields, "lat"@) == Some(self.lat.encode()),
            lookup(fields, "lon"@) == Some(self.lon.encode()),
            lookup(fields, "timezone"@) == written(self.timezone),
        ensures
            Self::from_fields(fields) == Ok::<Self, DecodeError>(self),
    {
        reveal(LocationView::from_fields);
        lemma_optional(fields, "address", self.address);
        lemma_required(fields, "lat", self.lat);
        lemma_required(fields, "lon", self.lon);
        lemma_optional(fields, "timezone", self.timezone);
    }
}

impl Model for LocationView {
    open spec fn encode(self) -> ValueView {
        ValueView::Object(self.fields())
    }

    open spec fn decode(v: ValueView) -> Result<Self, DecodeError> {
        match v {
            ValueView::Object(fields) => Self::from_fields(fields),
            _ => Err(DecodeError::InvalidType),
        }
    }

    open spec fn valid(self) -> bool {
        &&& self.lat.valid()
        &&& self.lon.valid()
    }

    proof fn lemma_round_trip(self) {
        self.lemma_fields();
        self.lemma_from_fields(self.fields());
    }
}

impl Location {
    /// Appends the fields that stand for this record.
    pub fn put_fields(&self, fields: &mut Vec<(String, Value)>)
        ensures
            final(fields).deep_view() == self@.fields_after(old(fields).deep_view()),
    {
        reveal(LocationView::fields_after);
        put_some(fields, "address", &self.address);
        put(fields, "lat", &self.lat);
        put(fields, "lon", &self.lon);
        put_some(fields, "timezone", &self.timezone);
    }

    /// Reads the record that the fields of an object stand for.
    pub fn from_fields(fields: &Vec<(String, Value)>) -> (r: Result<Self, DecodeError>)
        ensures
            decoded(r, LocationView::from_fields(fields.deep_view())),
    {
        reveal(LocationView::from_fields);
        let address = get_some::<String>(fields, "address")?;
        let lat = get::<Double>(fields, "lat")?;
        let lon = get::<Double>(fields, "lon")?;
        let timezone = get_some::<String>(fields, "timezone")?;
        Ok(Location { address, lat, lon, timezone })
    }
}

impl Codec for Location {
    fn to_value(&self) -> (r: Value) {
        broadcast use group_value_view;

        let mut fields: Vec<(String, Value)> = Vec::new();
        assert(fields.deep_view() =~= Seq::empty());
        self.put_fields(&mut fields);
        Value::Object(fields)
    }

    fn from_value(v: &Value) -> (r: Result<Self, DecodeError>) {
        broadcast use group_value_view;

        match v {
            Value::Object(fields) => Self::from_fields(fields),
            _ => Err(DecodeError::InvalidType),
        }
    }
}

} // verus!
