//! Whether a space is open.

use crate::codec::{
    decoded, get, get_some, group_lookup, lemma_nullable, lemma_optional, lemma_required, lookup,
    maybe, nullable, one, optional, or_null, put, put_nullable, put_some, required, written, Codec,
    DecodeError, Fields, Model,
};
use crate::value::{group_value_view, Value, ValueView};
use vstd::prelude::*;

verus! {

/// The pictures that show a space open and closed.
#[derive(Debug, Default, PartialEq, Eq)]
pub struct Icon {
    pub open: String,
    pub closed: String,
}

/// The mathematical model of a [`Icon`].
pub struct IconView {
    pub open: Seq<char>,
    pub closed: Seq<char>,
}

impl DeepView for Icon {
    type V = IconView;

    open spec fn deep_view(&self) -> IconView {
        IconView {
            open: self.open.deep_view(),
            closed: self.closed.deep_view(),
        }
    }
}

impl View for Icon {
    type V = IconView;

    open spec fn view(&self) -> IconView {
        self.deep_view()
    }
}

impl Clone for Icon {
    fn clone(&self) -> (r: Self)
        ensures
            r@ == self@,
    {
        let open = self.open.clone();
        let closed = self.closed.clone();
        Icon { open, closed }
    }
}

impl IconView {
    /// The fields of an object after this record was written behind `before`.
    #[verifier::opaque]
    pub open spec fn fields_after(self, before: Fields) -> Fields {
        before
            + one("open"@, self.open.encode())
            + one("closed"@, self.closed.encode())
    }

    /// The fields that stand for this record.
    pub open spec fn fields(self) -> Fields {
        self.fields_after(Seq::empty())
    }

    /// The record that the fields of an object stand for, or the error of the
    /// first of its fields, in their order here, that cannot be read.
    #[verifier::opaque]
    pub open spec fn from_fields(fields: Fields) -> Result<Self, DecodeError> {
        let open = required::<Seq<char>>(fields, "open");
        let closed = required::<Seq<char>>(fields, "closed");
        if open is Err {
            Err(open->Err_0)
        } else if closed is Err {
            Err(closed->Err_0)
        } else {
            Ok(IconView {
                open: open->Ok_0,
                closed: closed->Ok_0,
            })
        }
    }

    /// What the written record holds under each of its keys: the tree of a
    /// value that is set, and nothing for one that is left out.
    pub proof fn lemma_fields(self)
        ensures
            lookup(self.fields(), "open"@) == Some(self.open.encode()),
            lookup(self.fields(), "closed"@) == Some(self.closed.encode()),
    {
        broadcast use group_lookup;

        reveal(IconView::fields_after);
        reveal_strlit("open");
        reveal_strlit("closed");
    }

    /// Fields that hold under each key of this record what the record writes
    /// there stand for this record.
    pub proof fn lemma_from_fields(self, fields: Fields)
        requires
            self.valid(),
            lookup(fields, "open"@) == Some(self.open.encode()),
            lookup(fields, "closed"@) == Some(self.closed.encode()),
        ensures
            Self::from_fields(fields) == Ok::<Self, DecodeError>(self),
    {
        reveal(IconView::from_fields);
        lemma_required(fields, "open", self.open);
        lemma_required(fields, "closed", self.closed);
    }
}

impl Model for IconView {
    open spec fn encode(self) -> ValueView {
        ValueView::Object(self.fields())
    }

    open spec fn decode(v: ValueView) -> Result<Self, DecodeError> {
        match v {
            ValueView::Object(fields) => Self::from_fields(fields),
            _ => Err(DecodeError::InvalidType),
        }
    }

    open spec fn valid(self) -> bool {
        true
    }

    proof fn lemma_round_trip(self) {
        self.lemma_fields();
        self.lemma_from_fields(self.fields());
    }
}

impl Icon {
    /// Appends the fields that stand for this record.
    pub fn put_fields(&self, fields: &mut Vec<(String, Value)>)
        ensures
            final(fields).deep_view() == self@.fields_after(old(fields).deep_view()),
    {
        reveal(IconView::fields_after);
        put(fields, "open", &self.open);
        put(fields, "closed", &self.closed);
    }

    /// Reads the record that the fields of an object stand for.
    pub fn from_fields(fields: &Vec<(String, Value)>) -> (r: Result<Self, DecodeError>)
        ensures
            decoded(r, IconView::from_fields(fields.deep_view())),
    {
        reveal(IconView::from_fields);
        let open = get::<String>(fields, "open")?;
        let closed = get::<String>(fields, "closed")?;
        Ok(Icon { open, closed })
    }
}

impl Codec for Icon {
    fn to_value(&self) -> (r: Value) {
        broadcast use group_value_view;

        let mut fields: Vec<(String, Value)> = Vec::new();
        assert(fields.deep_view() =~= Seq::empty());
        self.put_fields(&mut fields);
        Value::Object(fields)
    }

    fn from_value(v: &Value) -> (r: Result<Self, DecodeError>) {
        broadcast use group_value_view;

        match v {
            Value::Object(fields) => Self::from_fields(fields),
            _ => Err(DecodeError::InvalidType),
        }
    }
}

/// Whether a space is open.
#[derive(Debug, Default, PartialEq, Eq)]
pub struct State {
    /// Open, closed, or not known. What is not known is written as `null`.
    pub open: Option<bool>,
    /// When the state last changed, in seconds since 1970.
    pub lastchange: Option<u64>,
    pub trigger_person: Option<String>,
    pub message: Option<String>,
    pub icon: Option<Icon>,
}

/// The mathematical model of a [`State`].
pub struct StateView {
    pub open: Option<bool>,
    pub lastchange: Option<u64>,
    pub trigger_person: Option<Seq<char>>,
    pub message: Option<Seq<char>>,
    pub icon: Option<IconView>,
}

impl DeepView for State {
    type V = StateView;

    open spec fn deep_view(&self) -> StateView {
        StateView {
            open: self.open.deep_view(),
            lastchange: self.lastchange.deep_view(),
            trigger_person: self.trigger_person.deep_view(),
            message: self.message.deep_view(),
            icon: self.icon.deep_view(),
        }
    }
}

impl View for State {
    type V = StateView;

    open spec fn view(&self) -> StateView {
        self.deep_view()
    }
}

impl Clone for State {
    fn clone(&self) -> (r: Self)
        ensures
            r@ == self@,
    {
        let open = self.open.clone();
        let lastchange = self.lastchange.clone();
        let trigger_person = self.trigger_person.clone();
        let message = self.message.clone();
        let icon = self.icon.clone();
        State { open, lastchange, trigger_person, message, icon }
    }
}

impl StateView {
    /// The fields of an object after this record was written behind `before`.
    #[verifier::opaque]
    pub open spec fn fields_after(self, before: Fields) -> Fields {
        before
            + nullable("open"@, self.open)
            + maybe("lastchange"@, self.lastchange)
            + maybe("trigger_person"@, self.trigger_person)
            + maybe("message"@, self.message)
            + maybe("icon"@, self.icon)
    }

    /// The fields that stand for this record.
    pub open spec fn fields(self) -> Fields {
        self.fields_after(Seq::empty())
    }

    /// The record that the fields of an object stand for, or the error of the
    /// first of its fields, in their order here, that cannot be read.
    #[verifier::opaque]
    pub open spec fn from_fields(fields: Fields) -> Result<Self, DecodeError> {
        let open = optional::<bool>(fields, "open");
        let lastchange = optional::<u64>(fields, "lastchange");
        let trigger_person = optional::<Seq<char>>(fields, "trigger_person");
        let message = optional::<Seq<char>>(fields, "message");
        let icon = optional::<IconView>(fields, "icon");
        if open is Err {
            Err(open->Err_0)
        } else if lastchange is Err {
            Err(lastchange->Err_0)
        } else if trigger_person is Err {
            Err(trigger_person->Err_0)
        } else if message is Err {
            Err(message->Err_0)
        } else if icon is Err {
            Err(icon->Err_0)
        } else {
            Ok(StateView {
                open: open->Ok_0,
                lastchange: lastchange->Ok_0,
                trigger_person: trigger_person->Ok_0,
                message: message->Ok_0,
                icon: icon->Ok_0,
            })
        }
    }

    /// What the written record holds under each of its keys: the tree of a
    /// value that is set, and nothing for one that is left out.
    pub proof fn lemma_fields(self)
        ensures
            lookup(self.fields(), "open"@) == Some(or_null(self.open)),
            lookup(self.fields(), "lastchange"@) == written(self.lastchange),
            lookup(self.fields(), "trigger_person"@) == written(self.trigger_person),
            lookup(self.fields(), "message"@) == written(self.message),
            lookup(self.fields(), "icon"@) == written(self.icon),
    {
        broadcast use group_lookup;

        reveal(StateView::fields_after);
        reveal_strlit("open");
        reveal_strlit("lastchange");
        reveal_strlit("trigger_person");
        reveal_strlit("message");
        reveal_strlit("icon");
    }

    /// Fields that hold under each key of this record what the record writes
    /// there stand for this record.
    pub proof fn lemma_from_fields(self, fields: Fields)
        requires
            self.valid(),
            lookup(fields, "open"@) == Some(or_null(self.open)),
            lookup(fields, "lastchange"@) == written(self.lastchange),
            lookup(fields, "trigger_person"@) == written(self.trigger_person),
            lookup(fields, "message"@) == written(self.message),
            lookup(fields, "icon"@) == written(self.icon),
        ensures
            Self::from_fields(fields) == Ok::<Self, DecodeError>(self),
    {
        reveal(StateView::from_fields);
        lemma_nullable(fields, "open", self.open);
        lemma_optional(fields, "lastchange", self.lastchange);
        lemma_optional(fields, "trigger_person", self.trigger_person);
        lemma_optional(fields, "message", self.message);
        lemma_optional(fields, "icon", self.icon);
    }
}

impl Model for StateView {
    open spec fn encode(self) -> ValueView {
        ValueView::Object(self.fields())
    }

    open spec fn decode(v: ValueView) -> Result<Self, DecodeError> {
        match v {
            ValueView::Object(fields) => Self::from_fields(fields),
            _ => Err(DecodeError::InvalidType),
        }
    }

    open spec fn valid(self) -> bool {
        &&& self.icon matches Some(x) ==> x.valid()
    }

    proof fn lemma_round_trip(self) {
        self.lemma_fields();
        self.lemma_from_fields(self.fields());
    }
}

impl State {
    /// Appends the fields that stand for this record.
    pub fn put_fields(&self, fields: &mut Vec<(String, Value)>)
        ensures
            final(fields).deep_view() == self@.fields_after(old(fields).deep_view()),
    {
        reveal(StateView::fields_after);
        put_nullable(fields, "open", &self.open);
        put_some(fields, "lastchange", &self.lastchange);
        put_some(fields, "trigger_person", &self.trigger_person);
        put_some(fields, "message", &self.message);
        put_some(fields, "icon", &self.icon);
    }

    /// Reads the record that the fields of an object stand for.
    pub fn from_fields(fields: &Vec<(String, Value)>) -> (r: Result<Self, DecodeError>)
        ensures
            decoded(r, StateView::from_fields(fields.deep_view())),
    {
        reveal(StateView::from_fields);
        let open = get_some::<bool>(fields, "open")?;
        let lastchange = get_some::<u64>(fields, "lastchange")?;
        let trigger_person = get_some::<String>(fields, "trigger_person")?;
        let message = get_some::<String>(fields, "message")?;
        let icon = get_some::<Icon>(fields, "icon")?;
        Ok(State { open, lastchange, trigger_person, message, icon })
    }
}

impl Codec for State {
    fn to_value(&self) -> (r: Value) {
        broadcast use group_value_view;

        let mut fields: Vec<(String, Value)> = Vec::new();
        assert(fields.deep_view() =~= Seq::empty());
        self.put_fields(&mut fields);
        Value::Object(fields)
    }

    fn from_value(v: &Value) -> (r: Result<Self, DecodeError>) {
        broadcast use group_value_view;

        match v {
            Value::Object(fields) => Self::from_fields(fields),
            _ => Err(DecodeError::InvalidType),
        }
    }
}

} // verus!
