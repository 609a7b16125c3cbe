//! What a space offers and tells of itself.

use crate::codec::{
    decoded, get, get_some, group_lookup, lemma_literal, lemma_optional, lemma_required, lookup,
    maybe, one, optional, put, put_some, required, written, Codec, DecodeError, Fields, Model,
};
use crate::number::Double;
use crate::text::str_eq;
use crate::value::{group_value_view, Value, ValueView};
use vstd::prelude::*;

verus! {

/// What a space offers to the federation of spaces.
#[derive(Debug, Default, PartialEq, Eq)]
pub struct Spacefed {
    pub spacenet: bool,
    pub spacesaml: bool,
    /// Asked for up to version 0.13, gone in 0.14.
    pub spacephone: Option<bool>,
}

/// The mathematical model of a [`Spacefed`].
pub struct SpacefedView {
    pub spacenet: bool,
    pub spacesaml: bool,
    pub spacephone: Option<bool>,
}

impl DeepView for Spacefed {
    type V = SpacefedView;

    open spec fn deep_view(&self) -> SpacefedView {
        SpacefedView {
            spacenet: self.spacenet.deep_view(),
            spacesaml: self.spacesaml.deep_view(),
            spacephone: self.spacephone.deep_view(),
        }
    }
}

impl View for Spacefed {
    type V = SpacefedView;

    open spec fn view(&self) -> SpacefedView {
        self.deep_view()
    }
}

impl Clone for Spacefed {
    fn clone(&self) -> (r: Self)
        ensures
            r@ == self@,
    {
        let spacenet = self.spacenet.clone();
        let spacesaml = self.spacesaml.clone();
        let spacephone = self.spacephone.clone();
        Spacefed { spacenet, spacesaml, spacephone }
    }
}

impl SpacefedView {
    /// The fields of an object after this record was written behind `before`.
    #[verifier::opaque]
    pub open spec fn fields_after(self, before: Fields) -> Fields {
        before
            + one("spacenet"@, self.spacenet.encode())
            + one("spacesaml"@, self.spacesaml.encode())
            + maybe("spacephone"@, self.spacephone)
    }

    /// The fields that stand for this record.
    pub open spec fn fields(self) -> Fields {
        self.fields_after(Seq::empty())
    }

    /// The record that the fields of an object stand for, or the error of the
    /// first of its fields, in their order here, that cannot be read.
    #[verifier::opaque]
    pub open spec fn from_fields(fields: Fields) -> Result<Self, DecodeError> {
        let spacenet = required::<bool>(fields, "spacenet");
        let spacesaml = required::<bool>(fields, "spacesaml");
        let spacephone = optional::<bool>(fields, "spacephone");
        if spacenet is Err {
            Err(spacenet->Err_0)
        } else if spacesaml is Err {
            Err(spacesaml->Err_0)
        } else if spacephone is Err {
            Err(spacephone->Err_0)
        } else {
            Ok(SpacefedView {
                spacenet: spacenet->Ok_0,
                spacesaml: spacesaml->Ok_0,
                spacephone: spacephone->Ok_0,
            })
        }
    }

    /// What the written record holds under each of its keys: the tree of a
    /// value that is set, and nothing for one that is left out.
    pub proof fn lemma_fields(self)
        ensures
            lookup(self.fields(), "spacenet"@) == Some(self.spacenet.encode()),
            lookup(self.fields(), "spacesaml"@) == Some(self.spacesaml.encode()),
            lookup(self.fields(), "spacephone"@) == written(self.spacephone),
    {
        broadcast use group_lookup;

        reveal(SpacefedView::fields_after);
        reveal_strlit("spacenet");
        reveal_strlit("spacesaml");
        reveal_strlit("spacephone");
    }

    /// Fields that hold under each key of this record what the record writes
    /// there stand for this record.
    pub proof fn lemma_from_fields(self, fields: Fields)
        requires
            self.valid(),
            lookup(fields, "spacenet"@) == Some(self.spacenet.encode()),
            lookup(fields, "spacesaml"@) == Some(self.spacesaml.encode()),
            lookup(fields, "spacephone"@) == written(self.spacephone),
        ensures
            Self::from_fields(fields) == Ok::<Self, DecodeError>(self),
    {
        reveal(SpacefedView::from_fields);
        lemma_required(fields, "spacenet", self.spacenet);
        lemma_required(fields, "spacesaml", self.spacesaml);
        lemma_optional(fields, "spacephone", self.spacephone);
    }
}

impl Model for SpacefedView {
    open spec fn encode(self) -> ValueView {
        ValueView::Object(self.fields())
    }

    open spec fn decode(v: ValueView) -> Result<Self, DecodeError> {
        match v {
            ValueView::Object(fields) => Self::from_fields(fields),
            _ => Err(DecodeError::InvalidType),
        }
    }

    open spec fn valid(self) -> bool {
        true
    }

    proof fn lemma_round_trip(self) {
        self.lemma_fields();
        self.lemma_from_fields(self.fields());
    }
}

impl Spacefed {
    /// Appends the fields that stand for this record.
    pub fn put_fields(&self, fields: &mut Vec<(String, Value)>)
        ensures
            final(fields).deep_view() == self@.fields_after(old(fields).deep_view()),
    {
        reveal(SpacefedView::fields_after);
        put(fields, "spacenet", &self.spacenet);
        put(fields, "spacesaml", &self.spacesaml);
        put_some(fields, "spacephone", &self.spacephone);
    }

    /// Reads the record that the fields of an object stand for.
    pub fn from_fields(fields: &Vec<(String, Value)>) -> (r: Result<Self, DecodeError>)
        ensures
            decoded(r, SpacefedView::from_fields(fields.deep_view())),
    {
        reveal(SpacefedView::from_fields);
        let spacenet = get::<bool>(fields, "spacenet")?;
        let spacesaml = get::<bool>(fields, "spacesaml")?;
        let spacephone = get_some::<bool>(fields, "spacephone")?;
        Ok(Spacefed { spacenet, spacesaml, spacephone })
    }
}

impl Codec for Spacefed {
    fn to_value(&self) -> (r: Value) {
        broadcast use group_value_view;

        let mut fields: Vec<(String, Value)> = Vec::new();
        assert(fields.deep_view() =~= Seq::empty());
        self.put_fields(&mut fields);
        Value::Object(fields)
    }

    fn from_value(v: &Value) -> (r: Result<Self, DecodeError>) {
        broadcast use group_value_view;

        match v {
            Value::Object(fields) => Self::from_fields(fields),
            _ => Err(DecodeError::InvalidType),
        }
    }
}

/// Something that happened at a space.
#[derive(Debug, Default, PartialEq, Eq)]
pub struct Event {
    pub name: String,
    /// Written as `type`.
    pub type_: String,
    pub timestamp: u64,
    pub extra: Option<String>,
}

/// The mathematical model of a [`Event`].
pub struct EventView {
    pub name: Seq<char>,
    pub type_: Seq<char>,
    pub timestamp: u64,
    pub extra: Option<Seq<char>>,
}

impl DeepView for Event {
    type V = EventView;

    open spec fn deep_view(&self) -> EventView {
        EventView {
            name: self.name.deep_view(),
            type_: self.type_.deep_view(),
            timestamp: self.timestamp.deep_view(),
            extra: self.extra.deep_view(),
        }
    }
}

impl View for Event {
    type V = EventView;

    open spec fn view(&self) -> EventView {
        self.deep_view()
    }
}

impl Clone for Event {
    fn clone(&self) -> (r: Self)
        ensures
            r@ == self@,
    {
        let name = self.name.clone();
        let type_ = self.type_.clone();
        let timestamp = self.timestamp.clone();
        let extra = self.extra.clone();
        Event { name, type_, timestamp, extra }
    }
}

impl EventView {
    /// The fields of an object after this record was written behind `before`.
    #[verifier::opaque]
    pub open spec fn fields_after(self, before: Fields) -> Fields {
        before
            + one("name"@, self.name.encode())
            + one("type"@, self.type_.encode())
            + one("timestamp"@, self.timestamp.encode())
            + maybe("extra"@, self.extra)
    }

    /// The fields that stand for this record.
    pub open spec fn fields(self) -> Fields {
        self.fields_after(Seq::empty())
    }

    /// The record that the fields of an object stand for, or the error of the
    /// first of its fields, in their order here, that cannot be read.
    #[verifier::opaque]
    pub open spec fn from_fields(fields: Fields) -> Result<Self, DecodeError> {
        let name = required::<Seq<char>>(fields, "name");
        let type_ = required::<Seq<char>>(fields, "type");
        let timestamp = required::<u64>(fields, "timestamp");
        let extra = optional::<Seq<char>>(fields, "extra");
        if name is Err {
            Err(name->Err_0)
        } else if type_ is Err {
            Err(type_->Err_0)
        } else if timestamp is Err {
            Err(timestamp->Err_0)
        } else if extra is Err {
            Err(extra->Err_0)
        } else {
            Ok(EventView {
                name: name->Ok_0,
                type_: type_->Ok_0,
                timestamp: timestamp->Ok_0,
                extra: extra->Ok_0,
            })
        }
    }

    /// What the written record holds under each of its keys: the tree of a
    /// value that is set, and nothing for one that is left out.
    pub proof fn lemma_fields(self)
        ensures
            lookup(self.fields(), "name"@) == Some(self.name.encode()),
            lookup(self.fields(), "type"@) == Some(self.type_.encode()),
            lookup(self.fields(), "timestamp"@) == Some(self.timestamp.encode()),
            lookup(self.fields(), "extra"@) == written(self.extra),
    {
        broadcast use group_lookup;

        reveal(EventView::fields_after);
        reveal_strlit("name");
        reveal_strlit("type");
        reveal_strlit("timestamp");
        reveal_strlit("extra");
    }

    /// Fields that hold under each key of this record what the record writes
    /// there stand for this record.
    pub proof fn lemma_from_fields(self, fields: Fields)
        requires
            self.valid(),
            lookup(fields, "name"@) == Some(self.name.encode()),
            lookup(fields, "type"@) == Some(self.type_.encode()),
            lookup(fields, "timestamp"@) == Some(self.timestamp.encode()),
            lookup(fields, "extra"@) == written(self.extra),
        ensures
            Self::from_fields(fields) == Ok::<Self, DecodeError>(self),
    {
        reveal(EventView::from_fields);
        lemma_required(fields, "name", self.name);
        lemma_required(fields, "type", self.type_);
        lemma_required(fields, "timestamp", self.timestamp);
        lemma_optional(fields, "extra", self.extra);
    }
}

impl Model for EventView {
    open spec fn encode(self) -> ValueView {
        ValueView::Object(self.fields())
    }

    open spec fn decode(v: ValueView) -> Result<Self, DecodeError> {
        match v {
            ValueView::Object(fields) => Self::from_fields(fields),
            _ => Err(DecodeError::InvalidType),
        }
    }

    open spec fn valid(self) -> bool {
        true
    }

    proof fn lemma_round_trip(self) {
        self.lemma_fields();
        self.lemma_from_fields(self.fields());
    }
}

impl Event {
    /// Appends the fields that stand for this record.
    pub fn put_fields(&self, fields: &mut Vec<(String, Value)>)
        ensures
            final(fields).deep_view() == self@.fields_after(old(fields).deep_view()),
    {
        reveal(EventView::fields_after);
        put(fields, "name", &self.name);
        put(fields, "type", &self.type_);
        put(fields, "timestamp", &self.timestamp);
        put_some(fields, "extra", &self.extra);
    }

    /// Reads the record that the fields of an object stand for.
    pub fn from_fields(fields: &Vec<(String, Value)>) -> (r: Result<Self, DecodeError>)
        ensures
            decoded(r, EventView::from_fields(fields.deep_view())),
    {
        reveal(EventView::from_fields);
        let name = get::<String>(fields, "name")?;
        let type_ = get::<String>(fields, "type")?;
        let timestamp = get::<u64>(fields, "timestamp")?;
        let extra = get_some::<String>(fields, "extra")?;
        Ok(Event { name, type_, timestamp, extra })
    }
}

impl Codec for Event {
    fn to_value(&self) -> (r: Value) {
        broadcast use group_value_view;

        let mut fields: Vec<(String, Value)> = Vec::new();
        assert(fields.deep_view() =~= Seq::empty());
        self.put_fields(&mut fields);
        Value::Object(fields)
    }

    fn from_value(v: &Value) -> (r: Result<Self, DecodeError>) {
        broadcast use group_value_view;

        match v {
            Value::Object(fields) => Self::from_fields(fields),
            _ => Err(DecodeError::InvalidType),
        }
    }
}

/// One feed of news.
#[derive(Debug, Default, PartialEq, Eq)]
pub struct Feed {
    /// Written as `type`.
    pub type_: Option<String>,
    pub url: String,
}

/// The mathematical model of a [`Feed`].
pub struct FeedView {
    pub type_: Option<Seq<char>>,
    pub url: Seq<char>,
}

impl DeepView for Feed {
    type V = FeedView;

    open spec fn deep_view(&self) -> FeedView {
        FeedView {
            type_: self.type_.deep_view(),
            url: self.url.deep_view(),
        }
    }
}

impl View for Feed {
    type V = FeedView;

    open spec fn view(&self) -> FeedView {
        self.deep_view()
    }
}

impl Clone for Feed {
    fn clone(&self) -> (r: Self)
        ensures
            r@ == self@,
    {
        let type_ = self.type_.clone();
        let url = self.url.clone();
        Feed { type_, url }
    }
}

impl FeedView {
    /// The fields of an object after this record was written behind `before`.
    #[verifier::opaque]
    pub open spec fn fields_after(self, before: Fields) -> Fields {
        before
            + maybe("type"@, self.type_)
            + one("url"@, self.url.encode())
    }

    /// The fields that stand for this record.
    pub open spec fn fields(self) -> Fields {
        self.fields_after(Seq::empty())
    }

    /// The record that the fields of an object stand for, or the error of the
    /// first of its fields, in their order here, that cannot be read.
    #[verifier::opaque]
    pub open spec fn from_fields(fields: Fields) -> Result<Self, DecodeError> {
        let type_ = optional::<Seq<char>>(fields, "type");
        let url = required::<Seq<char>>(fields, "url");
        if type_ is Err {
            Err(type_->Err_0)
        } else if url is Err {
            Err(url->Err_0)
        } else {
            Ok(FeedView {
                type_: type_->Ok_0,
                url: url->Ok_0,
            })
        }
    }

    /// What the written record holds under each of its keys: the tree of a
    /// value that is set, and nothing for one that is left out.
    pub proof fn lemma_fields(self)
        ensures
            lookup(self.fields(), "type"@) == written(self.type_),
            lookup(self.fields(), "url"@) == Some(self.url.encode()),
    {
        broadcast use group_lookup;

        reveal(FeedView::fields_after);
        reveal_strlit("type");
        reveal_strlit("url");
    }

    /// Fields that hold under each key of this record what the record writes
    /// there stand for this record.
    pub proof fn lemma_from_fields(self, fields: Fields)
        requires
            self.valid(),
            lookup(fields, "type"@) == written(self.type_),
            lookup(fields, "url"@) == Some(self.url.encode()),
        ensures
            Self::from_fields(fields) == Ok::<Self, DecodeError>(self),
    {
        reveal(FeedView::from_fields);
        lemma_optional(fields, "type", self.type_);
        lemma_required(fields, "url", self.url);
    }
}

impl Model for FeedView {
    open spec fn encode(self) -> ValueView {
        ValueView::Object(self.fields())
    }

    open spec fn decode(v: ValueView) -> Result<Self, DecodeError> {
        match v {
            ValueView::Object(fields) => Self::from_fields(fields),
            _ => Err(DecodeError::InvalidType),
        }
    }

    open spec fn valid(self) -> bool {
        true
    }

    proof fn lemma_round_trip(self) {
        self.lemma_fields();
        self.lemma_from_fields(self.fields());
    }
}

impl Feed {
    /// Appends the fields that stand for this record.
    pub fn put_fields(&self, fields: &mut Vec<(String, Value)>)
        ensures
            final(fields).deep_view() == self@.fields_after(old(fields).deep_view()),
    {
        reveal(FeedView::fields_after);
        put_some(fields, "type", &self.type_);
        put(fields, "url", &self.url);
    }

    /// Reads the record that the fields of an object stand for.
    pub fn from_fields(fields: &Vec<(String, Value)>) -> (r: Result<Self, DecodeError>)
        ensures
            decoded(r, FeedView::from_fields(fields.deep_view())),
    {
        reveal(FeedView::from_fields);
        let type_ = get_some::<String>(fields, "type")?;
        let url = get::<String>(fields, "url")?;
        Ok(Feed { type_, url })
    }
}

impl Codec for Feed {
    fn to_value(&self) -> (r: Value) {
        broadcast use group_value_view;

        let mut fields: Vec<(String, Value)> = Vec::new();
        assert(fields.deep_view() =~= Seq::empty());
        self.put_fields(&mut fields);
        Value::Object(fields)
    }

    fn from_value(v: &Value) -> (r: Result<Self, DecodeError>) {
        broadcast use group_value_view;

        match v {
            Value::Object(fields) => Self::from_fields(fields),
            _ => Err(DecodeError::InvalidType),
        }
    }
}

/// The feeds of a space.
#[derive(Debug, Default, PartialEq, Eq)]
pub struct Feeds {
    pub blog: Option<Feed>,
    pub wiki: Option<Feed>,
    pub calendar: Option<Feed>,
    pub flickr: Option<Feed>,
}

/// The mathematical model of a [`Feeds`].
pub struct FeedsView {
    pub blog: Option<FeedView>,
    pub wiki: Option<FeedView>,
    pub calendar: Option<FeedView>,
    pub flickr: Option<FeedView>,
}

impl DeepView for Feeds {
    type V = FeedsView;

    open spec fn deep_view(&self) -> FeedsView {
        FeedsView {
            blog: self.blog.deep_view(),
            wiki: self.wiki.deep_view(),
            calendar: self.calendar.deep_view(),
            flickr: self.flickr.deep_view(),
        }
    }
}

impl View for Feeds {
    type V = FeedsView;

    open spec fn view(&self) -> FeedsView {
        self.deep_view()
    }
}

impl Clone for Feeds {
    fn clone(&self) -> (r: Self)
        ensures
            r@ == self@,
    {
        let blog = self.blog.clone();
        let wiki = self.wiki.clone();
        let calendar = self.calendar.clone();
        let flickr = self.flickr.clone();
        Feeds { blog, wiki, calendar, flickr }
    }
}

impl FeedsView {
    /// The fields of an object after this record was written behind `before`.
    #[verifier::opaque]
    pub open spec fn fields_after(self, before: Fields) -> Fields {
        before
            + maybe("blog"@, self.blog)
            + maybe("wiki"@, self.wiki)
            + maybe("calendar"@, self.calendar)
            + maybe("flickr"@, self.flickr)
    }

    /// The fields that stand for this record.
    pub open spec fn fields(self) -> Fields {
        self.fields_after(Seq::empty())
    }

    /// The record that the fields of an object stand for, or the error of the
    /// first of its fields, in their order here, that cannot be read.
    #[verifier::opaque]
    pub open spec fn from_fields(fields: Fields) -> Result<Self, DecodeError> {
        let blog = optional::<FeedView>(fields, "blog");
        let wiki = optional::<FeedView>(fields, "wiki");
        let calendar = optional::<FeedView>(fields, "calendar");
        let flickr = optional::<FeedView>(fields, "flickr");
        if blog is Err {
            Err(blog->Err_0)
        } else if wiki is Err {
            Err(wiki->Err_0)
        } else if calendar is Err {
            Err(calendar->Err_0)
        } else if flickr is Err {
            Err(flickr->Err_0)
        } else {
            Ok(FeedsView {
                blog: blog->Ok_0,
                wiki: wiki->Ok_0,
                calendar: calendar->Ok_0,
                flickr: flickr->Ok_0,
            })
        }
    }

    /// What the written record holds under each of its keys: the tree of a
    /// value that is set, and nothing for one that is left out.
    pub proof fn lemma_fields(self)
        ensures
            lookup(self.fields(), "blog"@) == written(self.blog),
            lookup(self.fields(), "wiki"@) == written(self.wiki),
            lookup(self.fields(), "calendar"@) == written(self.calendar),
            lookup(self.fields(), "flickr"@) == written(self.flickr),
    {
        broadcast use group_lookup;

        reveal(FeedsView::fields_after);
        reveal_strlit("blog");
        reveal_strlit("wiki");
        reveal_strlit("calendar");
        reveal_strlit("flickr");
    }

    /// Fields that hold under each key of this record what the record writes
    /// there stand for this record.
    pub proof fn lemma_from_fields(self, fields: Fields)
        requires
            self.valid(),
            lookup(fields, "blog"@) == written(self.blog),
            lookup(fields, "wiki"@) == written(self.wiki),
            lookup(fields, "calendar"@) == written(self.calendar),
            lookup(fields, "flickr"@) == written(self.flickr),
        ensures
            Self::from_fields(fields) == Ok::<Self, DecodeError>(self),
    {
        reveal(FeedsView::from_fields);
        lemma_optional(fields, "blog", self.blog);
        lemma_optional(fields, "wiki", self.wiki);
        lemma_optional(fields, "calendar", self.calendar);
        lemma_optional(fields, "flickr", self.flickr);
    }
}

impl Model for FeedsView {
    open spec fn encode(self) -> ValueView {
        ValueView::Object(self.fields())
    }

    open spec fn decode(v: ValueView) -> Result<Self, DecodeError> {
        match v {
            ValueView::Object(fields) => Self::from_fields(fields),
            _ => Err(DecodeError::InvalidType),
        }
    }

    open spec fn valid(self) -> bool {
        &&& self.blog matches Some(x) ==> x.valid()
        &&& self.wiki matches Some(x) ==> x.valid()
        &&& self.calendar matches Some(x) ==> x.valid()
        &&& self.flickr matches Some(x) ==> x.valid()
    }

    proof fn lemma_round_trip(self) {
        self.lemma_fields();
        self.lemma_from_fields(self.fields());
    }
}

impl Feeds {
    /// Appends the fields that stand for this record.
    pub fn put_fields(&self, fields: &mut Vec<(String, Value)>)
        ensures
            final(fields).deep_view() == self@.fields_after(old(fields).deep_view()),
    {
        reveal(FeedsView::fields_after);
        put_some(fields, "blog", &self.blog);
        put_some(fields, "wiki", &self.wiki);
        put_some(fields, "calendar", &self.calendar);
        put_some(fields, "flickr", &self.flickr);
    }

    /// Reads the record that the fields of an object stand for.
    pub fn from_fields(fields: &Vec<(String, Value)>) -> (r: Result<Self, DecodeError>)
        ensures
            decoded(r, FeedsView::from_fields(fields.deep_view())),
    {
        reveal(FeedsView::from_fields);
        let blog = get_some::<Feed>(fields, "blog")?;
        let wiki = get_some::<Feed>(fields, "wiki")?;
        let calendar = get_some::<Feed>(fields, "calendar")?;
        let flickr = get_some::<Feed>(fields, "flickr")?;
        Ok(Feeds { blog, wiki, calendar, flickr })
    }
}

impl Codec for Feeds {
    fn to_value(&self) -> (r: Value) {
        broadcast use group_value_view;

        let mut fields: Vec<(String, Value)> = Vec::new();
        assert(fields.deep_view() =~= Seq::empty());
        self.put_fields(&mut fields);
        Value::Object(fields)
    }

    fn from_value(v: &Value) -> (r: Result<Self, DecodeError>) {
        broadcast use group_value_view;

        match v {
            Value::Object(fields) => Self::from_fields(fields),
            _ => Err(DecodeError::InvalidType),
        }
    }
}

/// How often a status may be asked for.
#[derive(Debug, Default, PartialEq, Eq)]
pub struct Cache {
    pub schedule: String,
}

/// The mathematical model of a [`Cache`].
pub struct CacheView {
    pub schedule: Seq<char>,
}

impl DeepView for Cache {
    type V = CacheView;

    open spec fn deep_view(&self) -> CacheView {
        CacheView {
            schedule: self.schedule.deep_view(),
        }
    }
}

impl View for Cache {
    type V = CacheView;

    open spec fn view(&self) -> CacheView {
        self.deep_view()
    }
}

impl Clone for Cache {
    fn clone(&self) -> (r: Self)
        ensures
            r@ == self@,
    {
        let schedule = self.schedule.clone();
        Cache { schedule }
    }
}

impl CacheView {
    /// The fields of an object after this record was written behind `before`.
    #[verifier::opaque]
    pub open spec fn fields_after(self, before: Fields) -> Fields {
        before
            + one("schedule"@, self.schedule.encode())
    }

    /// The fields that stand for this record.
    pub open spec fn fields(self) -> Fields {
        self.fields_after(Seq::empty())
    }

    /// The record that the fields of an object stand for, or the error of the
    /// first of its fields, in their order here, that cannot be read.
    #[verifier::opaque]
    pub open spec fn from_fields(fields: Fields) -> Result<Self, DecodeError> {
        let schedule = required::<Seq<char>>(fields, "schedule");
        if schedule is Err {
            Err(schedule->Err_0)
        } else {
            Ok(CacheView {
                schedule: schedule->Ok_0,
            })
        }
    }

    /// What the written record holds under each of its keys: the tree of a
    /// value that is set, and nothing for one that is left out.
    pub proof fn lemma_fields(self)
        ensures
            lookup(self.fields(), "schedule"@) == Some(self.schedule.encode()),
    {
        broadcast use group_lookup;

        reveal(CacheView::fields_after);
        reveal_strlit("schedule");
    }

    /// Fields that hold under each key of this record what the record writes
    /// there stand for this record.
    pub proof fn lemma_from_fields(self, fields: Fields)
        requires
            self.valid(),
            lookup(fields, "schedule"@) == Some(self.schedule.encode()),
        ensures
            Self::from_fields(fields) == Ok::<Self, DecodeError>(self),
    {
        reveal(CacheView::from_fields);
        lemma_required(fields, "schedule", self.schedule);
    }
}

impl Model for CacheView {
    open spec fn encode(self) -> ValueView {
        ValueView::Object(self.fields())
    }

    open spec fn decode(v: ValueView) -> Result<Self, DecodeError> {
        match v {
            ValueView::Object(fields) => Self::from_fields(fields),
            _ => Err(DecodeError::InvalidType),
        }
    }

    open spec fn valid(self) -> bool {
        true
    }

    proof fn lemma_round_trip(self) {
        self.lemma_fields();
        self.lemma_from_fields(self.fields());
    }
}

impl Cache {
    /// Appends the fields that stand for this record.
    pub fn put_fields(&self, fields: &mut Vec<(String, Value)>)
        ensures
            final(fields).deep_view() == self@.fields_after(old(fields).deep_view()),
    {
        reveal(CacheView::fields_after);
        put(fields, "schedule", &self.schedule);
    }

    /// Reads the record that the fields of an object stand for.
    pub fn from_fields(fields: &Vec<(String, Value)>) -> (r: Result<Self, DecodeError>)
        ensures
            decoded(r, CacheView::from_fields(fields.deep_view())),
    {
        reveal(CacheView::from_fields);
        let schedule = get::<String>(fields, "schedule")?;
        Ok(Cache { schedule })
    }
}

impl Codec for Cache {
    fn to_value(&self) -> (r: Value) {
        broadcast use group_value_view;

        let mut fields: Vec<(String, Value)> = Vec::new();
        assert(fields.deep_view() =~= Seq::empty());
        self.put_fields(&mut fields);
        Value::Object(fields)
    }

    fn from_value(v: &Value) -> (r: Result<Self, DecodeError>) {
        broadcast use group_value_view;

        match v {
            Value::Object(fields) => Self::from_fields(fields),
            _ => Err(DecodeError::InvalidType),
        }
    }
}

/// A radio show of a space. Gone in version 0.14.
#[derive(Debug, Default, PartialEq, Eq)]
pub struct RadioShow {
    pub name: String,
    pub url: String,
    /// Written as `type`.
    pub type_: String,
    pub start: String,
    pub end: String,
}

/// The mathematical model of a [`RadioShow`].
pub struct RadioShowView {
    pub name: Seq<char>,
    pub url: Seq<char>,
    pub type_: Seq<char>,
    pub start: Seq<char>,
    pub end: Seq<char>,
}

impl DeepView for RadioShow {
    type V = RadioShowView;

    open spec fn deep_view(&self) -> RadioShowView {
        RadioShowView {
            name: self.name.deep_view(),
            url: self.url.deep_view(),
            type_: self.type_.deep_view(),
            start: self.start.deep_view(),
            end: self.end.deep_view(),
        }
    }
}

impl View for RadioShow {
    type V = RadioShowView;

    open spec fn view(&self) -> RadioShowView {
        self.deep_view()
    }
}

impl Clone for RadioShow {
    fn clone(&self) -> (r: Self)
        ensures
            r@ == self@,
    {
        let name = self.name.clone();
        let url = self.url.clone();
        let type_ = self.type_.clone();
        let start = self.start.clone();
        let end = self.end.clone();
        RadioShow { name, url, type_, start, end }
    }
}

impl RadioShowView {
    /// The fields of an object after this record was written behind `before`.
    #[verifier::opaque]
    pub open spec fn fields_after(self, before: Fields) -> Fields {
        before
            + one("name"@, self.name.encode())
            + one("url"@, self.url.encode())
            + one("type"@, self.type_.encode())
            + one("start"@, self.start.encode())
            + one("end"@, self.end.encode())
    }

    /// The fields that stand for this record.
    pub open spec fn fields(self) -> Fields {
        self.fields_after(Seq::empty())
    }

    /// The record that the fields of an object stand for, or the error of the
    /// first of its fields, in their order here, that cannot be read.
    #[verifier::opaque]
    pub open spec fn from_fields(fields: Fields) -> Result<Self, DecodeError> {
        let name = required::<Seq<char>>(fields, "name");
        let url = required::<Seq<char>>(fields, "url");
        let type_ = required::<Seq<char>>(fields, "type");
        let start = required::<Seq<char>>(fields, "start");
        let end = required::<Seq<char>>(fields, "end");
        if name is Err {
            Err(name->Err_0)
        } else if url is Err {
            Err(url->Err_0)
        } else if type_ is Err {
            Err(type_->Err_0)
        } else if start is Err {
            Err(start->Err_0)
        } else if end is Err {
            Err(end->Err_0)
        } else {
            Ok(RadioShowView {
                name: name->Ok_0,
                url: url->Ok_0,
                type_: type_->Ok_0,
                start: start->Ok_0,
                end: end->Ok_0,
            })
        }
    }

    /// What the written record holds under each of its keys: the tree of a
    /// value that is set, and nothing for one that is left out.
    pub proof fn lemma_fields(self)
        ensures
            lookup(self.fields(), "name"@) == Some(self.name.encode()),
            lookup(self.fields(), "url"@) == Some(self.url.encode()),
            lookup(self.fields(), "type"@) == Some(self.type_.encode()),
            lookup(self.fields(), "start"@) == Some(self.start.encode()),
            lookup(self.fields(), "end"@) == Some(self.end.encode()),
    {
        broadcast use group_lookup;

        reveal(RadioShowView::fields_after);
        reveal_strlit("name");
        reveal_strlit("url");
        reveal_strlit("type");
        reveal_strlit("start");
        reveal_strlit("end");
    }

    /// Fields that hold under each key of this record what the record writes
    /// there stand for this record.
    pub proof fn lemma_from_fields(self, fields: Fields)
        requires
            self.valid(),
            lookup(fields, "name"@) == Some(self.name.encode()),
            lookup(fields, "url"@) == Some(self.url.encode()),
            lookup(fields, "type"@) == Some(self.type_.encode()),
            lookup(fields, "start"@) == Some(self.start.encode()),
            lookup(fields, "end"@) == Some(self.end.encode()),
        ensures
            Self::from_fields(fields) == Ok::<Self, DecodeError>(self),
    {
        reveal(RadioShowView::from_fields);
        lemma_required(fields, "name", self.name);
        lemma_required(fields, "url", self.url);
        lemma_required(fields, "type", self.type_);
        lemma_required(fields, "start", self.start);
        lemma_required(fields, "end", self.end);
    }
}

impl Model for RadioShowView {
    open spec fn encode(self) -> ValueView {
        ValueView::Object(self.fields())
    }

    open spec fn decode(v: ValueView) -> Result<Self, DecodeError> {
        match v {
            ValueView::Object(fields) => Self::from_fields(fields),
            _ => Err(DecodeError::InvalidType),
        }
    }

    open spec fn valid(self) -> bool {
        true
    }

    proof fn lemma_round_trip(self) {
        self.lemma_fields();
        self.lemma_from_fields(self.fields());
    }
}

impl RadioShow {
    /// Appends the fields that stand for this record.
    pub fn put_fields(&self, fields: &mut Vec<(String, Value)>)
        ensures
            final(fields).deep_view() == self@.fields_after(old(fields).deep_view()),
    {
        reveal(RadioShowView::fields_after);
        put(fields, "name", &self.name);
        put(fields, "url", &self.url);
        put(fields, "type", &self.type_);
        put(fields, "start", &self.start);
        put(fields, "end", &self.end);
    }

    /// Reads the record that the fields of an object stand for.
    pub fn from_fields(fields: &Vec<(String, Value)>) -> (r: Result<Self, DecodeError>)
        ensures
            decoded(r, RadioShowView::from_fields(fields.deep_view())),
    {
        reveal(RadioShowView::from_fields);
        let name = get::<String>(fields, "name")?;
        let url = get::<String>(fields, "url")?;
        let type_ = get::<String>(fields, "type")?;
        let start = get::<String>(fields, "start")?;
        let end = get::<String>(fields, "end")?;
        Ok(RadioShow { name, url, type_, start, end })
    }
}

impl Codec for RadioShow {
    fn to_value(&self) -> (r: Value) {
        broadcast use group_value_view;

        let mut fields: Vec<(String, Value)> = Vec::new();
        assert(fields.deep_view() =~= Seq::empty());
        self.put_fields(&mut fields);
        Value::Object(fields)
    }

    fn from_value(v: &Value) -> (r: Result<Self, DecodeError>) {
        broadcast use group_value_view;

        match v {
            Value::Object(fields) => Self::from_fields(fields),
            _ => Err(DecodeError::InvalidType),
        }
    }
}

/// A way to report a fault in a status. Asked for up to version 0.13, gone in
/// 0.14.
#[derive(Debug, Clone, Copy, PartialEq, Eq, Structural)]
pub enum IssueReportChannel {
    Email,
    IssueMail,
    Twitter,
    Ml,
}

impl DeepView for IssueReportChannel {
    type V = IssueReportChannel;

    open spec fn deep_view(&self) -> IssueReportChannel {
        *self
    }
}

impl View for IssueReportChannel {
    type V = IssueReportChannel;

    open spec fn view(&self) -> IssueReportChannel {
        *self
    }
}

impl IssueReportChannel {
    /// The name under which the variant stands in a document.
    pub open spec fn name(self) -> Seq<char> {
        match self {
            IssueReportChannel::Email => "email"@,
            IssueReportChannel::IssueMail => "issue_mail"@,
            IssueReportChannel::Twitter => "twitter"@,
            IssueReportChannel::Ml => "ml"@,
        }
    }

    /// The variant that stands in a document under the name `s`.
    pub open spec fn named(s: Seq<char>) -> Option<IssueReportChannel> {
        if s == "email"@ {
            Some(IssueReportChannel::Email)
        } else if s == "issue_mail"@ {
            Some(IssueReportChannel::IssueMail)
        } else if s == "twitter"@ {
            Some(IssueReportChannel::Twitter)
        } else if s == "ml"@ {
            Some(IssueReportChannel::Ml)
        } else {
            None
        }
    }

    /// The name under which the variant stands in a document.
    pub fn as_str(&self) -> (r: &'static str)
        ensures
            r@ == self.name(),
    {
        match self {
            IssueReportChannel::Email => "email",
            IssueReportChannel::IssueMail => "issue_mail",
            IssueReportChannel::Twitter => "twitter",
            IssueReportChannel::Ml => "ml",
        }
    }

    /// The variant that stands in a document under the name `s`.
    pub fn from_name(s: &str) -> (r: Option<IssueReportChannel>)
        ensures
            r == IssueReportChannel::named(s@),
    {
        if str_eq(s, "email") {
            Some(IssueReportChannel::Email)
        } else if str_eq(s, "issue_mail") {
            Some(IssueReportChannel::IssueMail)
        } else if str_eq(s, "twitter") {
            Some(IssueReportChannel::Twitter)
        } else if str_eq(s, "ml") {
            Some(IssueReportChannel::Ml)
        } else {
            None
        }
    }
}

impl Model for IssueReportChannel {
    open spec fn encode(self) -> ValueView {
        ValueView::String(self.name())
    }

    open spec fn decode(v: ValueView) -> Result<Self, DecodeError> {
        match v {
            ValueView::String(s) => match IssueReportChannel::named(s) {
                Some(x) => Ok(x),
                None => Err(DecodeError::UnknownVariant),
            },
            _ => Err(DecodeError::InvalidType),
        }
    }

    open spec fn valid(self) -> bool {
        true
    }

    proof fn lemma_round_trip(self) {
        broadcast use lemma_literal;

        reveal_strlit("email");
        reveal_strlit("issue_mail");
        reveal_strlit("twitter");
        reveal_strlit("ml");
    }
}

impl Codec for IssueReportChannel {
    fn to_value(&self) -> (r: Value) {
        Value::String(self.as_str().to_owned())
    }

    fn from_value(v: &Value) -> (r: Result<Self, DecodeError>) {
        match v {
            Value::String(s) => match IssueReportChannel::from_name(s.as_str()) {
                Some(x) => Ok(x),
                None => Err(DecodeError::UnknownVariant),
            },
            _ => Err(DecodeError::InvalidType),
        }
    }
}

/// The streams of a space.
#[derive(Debug, Default, PartialEq, Eq)]
pub struct Stream {
    pub m4: Option<String>,
    pub mjpeg: Option<String>,
    pub ustream: Option<String>,
}

/// The mathematical model of a [`Stream`].
pub struct StreamView {
    pub m4: Option<Seq<char>>,
    pub mjpeg: Option<Seq<char>>,
    pub ustream: Option<Seq<char>>,
}

impl DeepView for Stream {
    type V = StreamView;

    open spec fn deep_view(&self) -> StreamView {
        StreamView {
            m4: self.m4.deep_view(),
            mjpeg: self.mjpeg.deep_view(),
            ustream: self.ustream.deep_view(),
        }
    }
}

impl View for Stream {
    type V = StreamView;

    open spec fn view(&self) -> StreamView {
        self.deep_view()
    }
}

impl Clone for Stream {
    fn clone(&self) -> (r: Self)
        ensures
            r@ == self@,
    {
        let m4 = self.m4.clone();
        let mjpeg = self.mjpeg.clone();
        let ustream = self.ustream.clone();
        Stream { m4, mjpeg, ustream }
    }
}

impl StreamView {
    /// The fields of an object after this record was written behind `before`.
    #[verifier::opaque]
    pub open spec fn fields_after(self, before: Fields) -> Fields {
        before
            + maybe("m4"@, self.m4)
            + maybe("mjpeg"@, self.mjpeg)
            + maybe("ustream"@, self.ustream)
    }

    /// The fields that stand for this record.
    pub open spec fn fields(self) -> Fields {
        self.fields_after(Seq::empty())
    }

    /// The record that the fields of an object stand for, or the error of the
    /// first of its fields, in their order here, that cannot be read.
    #[verifier::opaque]
    pub open spec fn from_fields(fields: Fields) -> Result<Self, DecodeError> {
        let m4 = optional::<Seq<char>>(fields, "m4");
        let mjpeg = optional::<Seq<char>>(fields, "mjpeg");
        let ustream = optional::<Seq<char>>(fields, "ustream");
        if m4 is Err {
            Err(m4->Err_0)
        } else if mjpeg is Err {
            Err(mjpeg->Err_0)
        } else if ustream is Err {
            Err(ustream->Err_0)
        } else {
            Ok(StreamView {
                m4: m4->Ok_0,
                mjpeg: mjpeg->Ok_0,
                ustream: ustream->Ok_0,
            })
        }
    }

    /// What the written record holds under each of its keys: the tree of a
    /// value that is set, and nothing for one that is left out.
    pub proof fn lemma_fields(self)
        ensures
            lookup(self.fields(), "m4"@) == written(self.m4),
            lookup(self.fields(), "mjpeg"@) == written(self.mjpeg),
            lookup(self.fields(), "ustream"@) == written(self.ustream),
    {
        broadcast use group_lookup;

        reveal(StreamView::fields_after);
        reveal_strlit("m4");
        reveal_strlit("mjpeg");
        reveal_strlit("ustream");
    }

    /// Fields that hold under each key of this record what the record writes
    /// there stand for this record.
    pub proof fn lemma_from_fields(self, fields: Fields)
        requires
            self.valid(),
            lookup(fields, "m4"@) == written(self.m4),
            lookup(fields, "mjpeg"@) == written(self.mjpeg),
            lookup(fields, "ustream"@) == written(self.ustream),
        ensures
            Self::from_fields(fields) == Ok::<Self, DecodeError>(self),
    {
        reveal(StreamView::from_fields);
        lemma_optional(fields, "m4", self.m4);
        lemma_optional(fields, "mjpeg", self.mjpeg);
        lemma_optional(fields, "ustream", self.ustream);
    }
}

impl Model for StreamView {
    open spec fn encode(self) -> ValueView {
        ValueView::Object(self.fields())
    }

    open spec fn decode(v: ValueView) -> Result<Self, DecodeError> {
        match v {
            ValueView::Object(fields) => Self::from_fields(fields),
            _ => Err(DecodeError::InvalidType),
        }
    }

    open spec fn valid(self) -> bool {
        true
    }

    proof fn lemma_round_trip(self) {
        self.lemma_fields();
        self.lemma_from_fields(self.fields());
    }
}

impl Stream {
    /// Appends the fields that stand for this record.
    pub fn put_fields(&self, fields: &mut Vec<(String, Value)>)
        ensures
            final(fields).deep_view() == self@.fields_after(old(fields).deep_view()),
    {
        reveal(StreamView::fields_after);
        put_some(fields, "m4", &self.m4);
        put_some(fields, "mjpeg", &self.mjpeg);
        put_some(fields, "ustream", &self.ustream);
    }

    /// Reads the record that the fields of an object stand for.
    pub fn from_fields(fields: &Vec<(String, Value)>) -> (r: Result<Self, DecodeError>)
        ensures
            decoded(r, StreamView::from_fields(fields.deep_view())),
    {
        reveal(StreamView::from_fields);
        let m4 = get_some::<String>(fields, "m4")?;
        let mjpeg = get_some::<String>(fields, "mjpeg")?;
        let ustream = get_some::<String>(fields, "ustream")?;
        Ok(Stream { m4, mjpeg, ustream })
    }
}

impl Codec for Stream {
    fn to_value(&self) -> (r: Value) {
        broadcast use group_value_view;

        let mut fields: Vec<(String, Value)> = Vec::new();
        assert(fields.deep_view() =~= Seq::empty());
        self.put_fields(&mut fields);
        Value::Object(fields)
    }

    fn from_value(v: &Value) -> (r: Result<Self, DecodeError>) {
        broadcast use group_value_view;

        match v {
            Value::Object(fields) => Self::from_fields(fields),
            _ => Err(DecodeError::InvalidType),
        }
    }
}

/// A link to something of a space. Known from version 0.14 on.
#[derive(Debug, Default, PartialEq, Eq)]
pub struct Link {
    pub name: String,
    pub description: Option<String>,
    pub url: String,
}

/// The mathematical model of a [`Link`].
pub struct LinkView {
    pub name: Seq<char>,
    pub description: Option<Seq<char>>,
    pub url: Seq<char>,
}

impl DeepView for Link {
    type V = LinkView;

    open spec fn deep_view(&self) -> LinkView {
        LinkView {
            name: self.name.deep_view(),
            description: self.description.deep_view(),
            url: self.url.deep_view(),
        }
    }
}

impl View for Link {
    type V = LinkView;

    open spec fn view(&self) -> LinkView {
        self.deep_view()
    }
}

impl Clone for Link {
    fn clone(&self) -> (r: Self)
        ensures
            r@ == self@,
    {
        let name = self.name.clone();
        let description = self.description.clone();
        let url = self.url.clone();
        Link { name, description, url }
    }
}

impl LinkView {
    /// The fields of an object after this record was written behind `before`.
    #[verifier::opaque]
    pub open spec fn fields_after(self, before: Fields) -> Fields {
        before
            + one("name"@, self.name.encode())
            + maybe("description"@, self.description)
            + one("url"@, self.url.encode())
    }

    /// The fields that stand for this record.
    pub open spec fn fields(self) -> Fields {
        self.fields_after(Seq::empty())
    }

    /// The record that the fields of an object stand for, or the error of the
    /// first of its fields, in their order here, that cannot be read.
    #[verifier::opaque]
    pub open spec fn from_fields(fields: Fields) -> Result<Self, DecodeError> {
        let name = required::<Seq<char>>(fields, "name");
        let description = optional::<Seq<char>>(fields, "description");
        let url = required::<Seq<char>>(fields, "url");
        if name is Err {
            Err(name->Err_0)
        } else if description is Err {
            Err(description->Err_0)
        } else if url is Err {
            Err(url->Err_0)
        } else {
            Ok(LinkView {
                name: name->Ok_0,
                description: description->Ok_0,
                url: url->Ok_0,
            })
        }
    }

    /// What the written record holds under each of its keys: the tree of a
    /// value that is set, and nothing for one that is left out.
    pub proof fn lemma_fields(self)
        ensures
            lookup(self.fields(), "name"@) == Some(self.name.encode()),
            lookup(self.fields(), "description"@) == written(self.description),
            lookup(self.fields(), "url"@) == Some(self.url.encode()),
    {
        broadcast use group_lookup;

        reveal(LinkView::fields_after);
        reveal_strlit("name");
        reveal_strlit("description");
        reveal_strlit("url");
    }

    /// Fields that hold under each key of this record what the record writes
    /// there stand for this record.
    pub proof fn lemma_from_fields(self, fields: Fields)
        requires
            self.valid(),
            lookup(fields, "name"@) == Some(self.name.encode()),
            lookup(fields, "description"@) == written(self.description),
            lookup(fields, "url"@) == Some(self.url.encode()),
        ensures
            Self::from_fields(fields) == Ok::<Self, DecodeError>(self),
    {
        reveal(LinkView::from_fields);
        lemma_required(fields, "name", self.name);
        lemma_optional(fields, "description", self.description);
        lemma_required(fields, "url", self.url);
    }
}

impl Model for LinkView {
    open spec fn encode(self) -> ValueView {
        ValueView::Object(self.fields())
    }

    open spec fn decode(v: ValueView) -> Result<Self, DecodeError> {
        match v {
            ValueView::Object(fields) => Self::from_fields(fields),
            _ => Err(DecodeError::InvalidType),
        }
    }

    open spec fn valid(self) -> bool {
        true
    }

    proof fn lemma_round_trip(self) {
        self.lemma_fields();
        self.lemma_from_fields(self.fields());
    }
}

impl Link {
    /// Appends the fields that stand for this record.
    pub fn put_fields(&self, fields: &mut Vec<(String, Value)>)
        ensures
            final(fields).deep_view() == self@.fields_after(old(fields).deep_view()),
    {
        reveal(LinkView::fields_after);
        put(fields, "name", &self.name);
        put_some(fields, "description", &self.description);
        put(fields, "url", &self.url);
    }

    /// Reads the record that the fields of an object stand for.
    pub fn from_fields(fields: &Vec<(String, Value)>) -> (r: Result<Self, DecodeError>)
        ensures
            decoded(r, LinkView::from_fields(fields.deep_view())),
    {
        reveal(LinkView::from_fields);
        let name = get::<String>(fields, "name")?;
        let description = get_some::<String>(fields, "description")?;
        let url = get::<String>(fields, "url")?;
        Ok(Link { name, description, url })
    }
}

impl Codec for Link {
    fn to_value(&self) -> (r: Value) {
        broadcast use group_value_view;

        let mut fields: Vec<(String, Value)> = Vec::new();
        assert(fields.deep_view() =~= Seq::empty());
        self.put_fields(&mut fields);
        Value::Object(fields)
    }

    fn from_value(v: &Value) -> (r: Result<Self, DecodeError>) {
        broadcast use group_value_view;

        match v {
            Value::Object(fields) => Self::from_fields(fields),
            _ => Err(DecodeError::InvalidType),
        }
    }
}

/// How often a membership is paid for.
#[derive(Debug, Clone, Copy, PartialEq, Eq, Structural)]
pub enum BillingInterval {
    Yearly,
    Monthly,
    Weekly,
    Daily,
    Hourly,
    Other,
}

impl DeepView for BillingInterval {
    type V = BillingInterval;

    open spec fn deep_view(&self) -> BillingInterval {
        *self
    }
}

impl View for BillingInterval {
    type V = BillingInterval;

    open spec fn view(&self) -> BillingInterval {
        *self
    }
}

impl Default for BillingInterval {
    fn default() -> (r: BillingInterval)
        ensures
            r == BillingInterval::Monthly,
    {
        BillingInterval::Monthly
    }
}

impl BillingInterval {
    /// The name under which the variant stands in a document.
    pub open spec fn name(self) -> Seq<char> {
        match self {
            BillingInterval::Yearly => "yearly"@,
            BillingInterval::Monthly => "monthly"@,
            BillingInterval::Weekly => "weekly"@,
            BillingInterval::Daily => "daily"@,
            BillingInterval::Hourly => "hourly"@,
            BillingInterval::Other => "other"@,
        }
    }

    /// The variant that stands in a document under the name `s`.
    pub open spec fn named(s: Seq<char>) -> Option<BillingInterval> {
        if s == "yearly"@ {
            Some(BillingInterval::Yearly)
        } else if s == "monthly"@ {
            Some(BillingInterval::Monthly)
        } else if s == "weekly"@ {
            Some(BillingInterval::Weekly)
        } else if s == "daily"@ {
            Some(BillingInterval::Daily)
        } else if s == "hourly"@ {
            Some(BillingInterval::Hourly)
        } else if s == "other"@ {
            Some(BillingInterval::Other)
        } else {
            None
        }
    }

    /// The name under which the variant stands in a document.
    pub fn as_str(&self) -> (r: &'static str)
        ensures
            r@ == self.name(),
    {
        match self {
            BillingInterval::Yearly => "yearly",
            BillingInterval::Monthly => "monthly",
            BillingInterval::Weekly => "weekly",
            BillingInterval::Daily => "daily",
            BillingInterval::Hourly => "hourly",
            BillingInterval::Other => "other",
        }
    }

    /// The variant that stands in a document under the name `s`.
    pub fn from_name(s: &str) -> (r: Option<BillingInterval>)
        ensures
            r == BillingInterval::named(s@),
    {
        if str_eq(s, "yearly") {
            Some(BillingInterval::Yearly)
        } else if str_eq(s, "monthly") {
            Some(BillingInterval::Monthly)
        } else if str_eq(s, "weekly") {
            Some(BillingInterval::Weekly)
        } else if str_eq(s, "daily") {
            Some(BillingInterval::Daily)
        } else if str_eq(s, "hourly") {
            Some(BillingInterval::Hourly)
        } else if str_eq(s, "other") {
            Some(BillingInterval::Other)
        } else {
            None
        }
    }
}

impl Model for BillingInterval {
    open spec fn encode(self) -> ValueView {
        ValueView::String(self.name())
    }

    open spec fn decode(v: ValueView) -> Result<Self, DecodeError> {
        match v {
            ValueView::String(s) => match BillingInterval::named(s) {
                Some(x) => Ok(x),
                None => Err(DecodeError::UnknownVariant),
            },
            _ => Err(DecodeError::InvalidType),
        }
    }

    open spec fn valid(self) -> bool {
        true
    }

    proof fn lemma_round_trip(self) {
        broadcast use lemma_literal;

        reveal_strlit("yearly");
        reveal_strlit("monthly");
        reveal_strlit("weekly");
        reveal_strlit("daily");
        reveal_strlit("hourly");
        reveal_strlit("other");
    }
}

impl Codec for BillingInterval {
    fn to_value(&self) -> (r: Value) {
        Value::String(self.as_str().to_owned())
    }

    fn from_value(v: &Value) -> (r: Result<Self, DecodeError>) {
        match v {
            Value::String(s) => match BillingInterval::from_name(s.as_str()) {
                Some(x) => Ok(x),
                None => Err(DecodeError::UnknownVariant),
            },
            _ => Err(DecodeError::InvalidType),
        }
    }
}

/// One way to be a member. Known from version 0.14 on.
#[derive(Debug, Default, PartialEq, Eq)]
pub struct MembershipPlan {
    pub name: String,
    /// What it costs.
    pub value: Double,
    pub currency: String,
    pub billing_interval: BillingInterval,
    pub description: Option<String>,
}

/// The mathematical model of a [`MembershipPlan`].
pub struct MembershipPlanView {
    pub name: Seq<char>,
    pub value: Double,
    pub currency: Seq<char>,
    pub billing_interval: BillingInterval,
    pub description: Option<Seq<char>>,
}

impl DeepView for MembershipPlan {
    type V = MembershipPlanView;

    open spec fn deep_view(&self) -> MembershipPlanView {
        MembershipPlanView {
            name: self.name.deep_view(),
            value: self.value.deep_view(),
            currency: self.currency.deep_view(),
            billing_interval: self.billing_interval.deep_view(),
            description: self.description.deep_view(),
        }
    }
}

impl View for MembershipPlan {
    type V = MembershipPlanView;

    open spec fn view(&self) -> MembershipPlanView {
        self.deep_view()
    }
}

impl Clone for MembershipPlan {
    fn clone(&self) -> (r: Self)
        ensures
            r@ == self@,
    {
        let name = self.name.clone();
        let value = self.value.clone();
        let currency = self.currency.clone();
        let billing_interval = self.billing_interval.clone();
        let description = self.description.clone();
        MembershipPlan { name, value, currency, billing_interval, description }
    }
}

impl MembershipPlanView {
    /// The fields of an object after this record was written behind `before`.
    #[verifier::opaque]
    pub open spec fn fields_after(self, before: Fields) -> Fields {
        before
            + one("name"@, self.name.encode())
            + one("value"@, self.value.encode())
            + one("currency"@, self.currency.encode())
            + one("billing_interval"@, self.billing_interval.encode())
            + maybe("description"@, self.description)
    }

    /// The fields that stand for this record.
    pub open spec fn fields(self) -> Fields {
        self.fields_after(Seq::empty())
    }

    /// The record that the fields of an object stand for, or the error of the
    /// first of its fields, in their order here, that cannot be read.
    #[verifier::opaque]
    pub open spec fn from_fields(fields: Fields) -> Result<Self, DecodeError> {
        let name = required::<Seq<char>>(fields, "name");
        let value = required::<Double>(fields, "value");
        let currency = required::<Seq<char>>(fields, "currency");
        let billing_interval = required::<BillingInterval>(fields, "billing_interval");
        let description = optional::<Seq<char>>(fields, "description");
        if name is Err {
            Err(name->Err_0)
        } else if value is Err {
            Err(value->Err_0)
        } else if currency is Err {
            Err(currency->Err_0)
        } else if billing_interval is Err {
            Err(billing_interval->Err_0)
        } else if description is Err {
            Err(description->Err_0)
        } else {
            Ok(MembershipPlanView {
                name: name->Ok_0,
                value: value->Ok_0,
                currency: currency->Ok_0,
                billing_interval: billing_interval->Ok_0,
                description: description->Ok_0,
            })
        }
    }

    /// What the written record holds under each of its keys: the tree of a
    /// value that is set, and nothing for one that is left out.
    pub proof fn lemma_fields(self)
        ensures
            lookup(self.fields(), "name"@) == Some(self.name.encode()),
            lookup(self.fields(), "value"@) == Some(self.value.encode()),
            lookup(self.fields(), "currency"@) == Some(self.currency.encode()),
            lookup(self.fields(), "billing_interval"@) == Some(self.billing_interval.encode()),
            lookup(self.fields(), "description"@) == written(self.description),
    {
        broadcast use group_lookup;

        reveal(MembershipPlanView::fields_after);
        reveal_strlit("name");
        reveal_strlit("value");
        reveal_strlit("currency");
        reveal_strlit("billing_interval");
        reveal_strlit("description");
    }

    /// Fields that hold under each key of this record what the record writes
    /// there stand for this record.
    pub proof fn lemma_from_fields(self, fields: Fields)
        requires
            self.valid(),
            lookup(fields, "name"@) == Some(self.name.encode()),
            lookup(fields, "value"@) == Some(self.value.encode()),
            lookup(fields, "currency"@) == Some(self.currency.encode()),
            lookup(fields, "billing_interval"@) == Some(self.billing_interval.encode()),
            lookup(fields, "description"@) == written(self.description),
        ensures
            Self::from_fields(fields) == Ok::<Self, DecodeError>(self),
    {
        reveal(MembershipPlanView::from_fields);
        lemma_required(fields, "name", self.name);
        lemma_required(fields, "value", self.value);
        lemma_required(fields, "currency", self.currency);
        lemma_required(fields, "billing_interval", self.billing_interval);
        lemma_optional(fields, "description", self.description);
    }
}

impl Model for MembershipPlanView {
    open spec fn encode(self) -> ValueView {
        ValueView::Object(self.fields())
    }

    open spec fn decode(v: ValueView) -> Result<Self, DecodeError> {
        match v {
            ValueView::Object(fields) => Self::from_fields(fields),
            _ => Err(DecodeError::InvalidType),
        }
    }

    open spec fn valid(self) -> bool {
        &&& self.value.valid()
    }

    proof fn lemma_round_trip(self) {
        self.lemma_fields();
        self.lemma_from_fields(self.fields());
    }
}

impl MembershipPlan {
    /// Appends the fields that stand for this record.
    pub fn put_fields(&self, fields: &mut Vec<(String, Value)>)
        ensures
            final(fields).deep_view() == self@.fields_after(old(fields).deep_view()),
    {
        reveal(MembershipPlanView::fields_after);
        put(fields, "name", &self.name);
        put(fields, "value", &self.value);
        put(fields, "currency", &self.currency);
        put(fields, "billing_interval", &self.billing_interval);
        put_some(fields, "description", &self.description);
    }

    /// Reads the record that the fields of an object stand for.
    pub fn from_fields(fields: &Vec<(String, Value)>) -> (r: Result<Self, DecodeError>)
        ensures
            decoded(r, MembershipPlanView::from_fields(fields.deep_view())),
    {
        reveal(MembershipPlanView::from_fields);
        let name = get::<String>(fields, "name")?;
        let value = get::<Double>(fields, "value")?;
        let currency = get::<String>(fields, "currency")?;
        let billing_interval = get::<BillingInterval>(fields, "billing_interval")?;
        let description = get_some::<String>(fields, "description")?;
        Ok(MembershipPlan { name, value, currency, billing_interval, description })
    }
}

impl Codec for MembershipPlan {
    fn to_value(&self) -> (r: Value) {
        broadcast use group_value_view;

        let mut fields: Vec<(String, Value)> = Vec::new();
        assert(fields.deep_view() =~= Seq::empty());
        self.put_fields(&mut fields);
        Value::Object(fields)
    }

    fn from_value(v: &Value) -> (r: Result<Self, DecodeError>) {
        broadcast use group_value_view;

        match v {
            Value::Object(fields) => Self::from_fields(fields),
            _ => Err(DecodeError::InvalidType),
        }
    }
}

/// A version of the schema that a status can say it meets.
#[derive(Debug, Clone, Copy, PartialEq, Eq, Structural)]
pub enum ApiVersion {
    /// Version 0.14, written as `14`.
    V14,
}

impl DeepView for ApiVersion {
    type V = ApiVersion;

    open spec fn deep_view(&self) -> ApiVersion {
        *self
    }
}

impl View for ApiVersion {
    type V = ApiVersion;

    open spec fn view(&self) -> ApiVersion {
        *self
    }
}

impl ApiVersion {
    /// The name under which the variant stands in a document.
    pub open spec fn name(self) -> Seq<char> {
        match self {
            ApiVersion::V14 => "14"@,
        }
    }

    /// The variant that stands in a document under the name `s`.
    pub open spec fn named(s: Seq<char>) -> Option<ApiVersion> {
        if s == "14"@ {
            Some(ApiVersion::V14)
        } else {
            None
        }
    }

    /// The name under which the variant stands in a document.
    pub fn as_str(&self) -> (r: &'static str)
        ensures
            r@ == self.name(),
    {
        match self {
            ApiVersion::V14 => "14",
        }
    }

    /// The variant that stands in a document under the name `s`.
    pub fn from_name(s: &str) -> (r: Option<ApiVersion>)
        ensures
            r == ApiVersion::named(s@),
    {
        if str_eq(s, "14") {
            Some(ApiVersion::V14)
        } else {
            None
        }
    }
}

impl Model for ApiVersion {
    open spec fn encode(self) -> ValueView {
        ValueView::String(self.name())
    }

    open spec fn decode(v: ValueView) -> Result<Self, DecodeError> {
        match v {
            ValueView::String(s) => match ApiVersion::named(s) {
                Some(x) => Ok(x),
                None => Err(DecodeError::UnknownVariant),
            },
            _ => Err(DecodeError::InvalidType),
        }
    }

    open spec fn valid(self) -> bool {
        true
    }

    proof fn lemma_round_trip(self) {
        broadcast use lemma_literal;

        reveal_strlit("14");
    }
}

impl Codec for ApiVersion {
    fn to_value(&self) -> (r: Value) {
        Value::String(self.as_str().to_owned())
    }

    fn from_value(v: &Value) -> (r: Result<Self, DecodeError>) {
        match v {
            Value::String(s) => match ApiVersion::from_name(s.as_str()) {
                Some(x) => Ok(x),
                None => Err(DecodeError::UnknownVariant),
            },
            _ => Err(DecodeError::InvalidType),
        }
    }
}

} // verus!
