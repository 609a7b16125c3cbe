//! How values of the schema are written into a document tree and read back.
//!
//! What is written and read is said over models: [`Model`] gives each value
//! its tree and each tree its value, and proves that a value is read back from
//! its tree. [`Codec`] is the same for the values themselves. A record is an
//! object; its fields are written in a fixed order by the functions of this
//! module, one for each way in which a field may be left out.

use crate::number::{Double, Number};
use crate::text::str_eq;
use crate::value::{group_value_view, Value, ValueView};
use vstd::prelude::*;

verus! {

/// Why a document tree is not a value of the schema.
#[derive(Debug, Clone, Copy, PartialEq, Eq)]
pub enum DecodeError {
    /// A value of another kind stands where this one was expected.
    InvalidType,
    /// An object lacks the named field.
    MissingField(&'static str),
    /// A string names no variant of the enumeration.
    UnknownVariant,
    /// An object holds a field that the schema does not know.
    UnknownField,
}

/// The fields of an object, in their order.
pub type Fields = Seq<(Seq<char>, ValueView)>;

/// A mathematical value that has a place in a document tree: the model of a
/// string, a number, a list, a record or an enumeration of the schema.
pub trait Model: Sized {
    /// The tree that stands for this value.
    spec fn encode(self) -> ValueView;

    /// The value that a tree stands for.
    spec fn decode(v: ValueView) -> Result<Self, DecodeError>;

    /// Whether the value can be read back from its tree.
    spec fn valid(self) -> bool;

    /// A valid value is never written as `null`, and is read back unchanged.
    proof fn lemma_round_trip(self)
        requires
            self.valid(),
        ensures
            self.encode() !is Null,
            Self::decode(self.encode()) == Ok::<Self, DecodeError>(self),
    ;
}

/// A string stands as itself.
impl Model for Seq<char> {
    open spec fn encode(self) -> ValueView {
        ValueView::String(self)
    }

    open spec fn decode(v: ValueView) -> Result<Self, DecodeError> {
        match v {
            ValueView::String(s) => Ok(s),
            _ => Err(DecodeError::InvalidType),
        }
    }

    open spec fn valid(self) -> bool {
        true
    }

    proof fn lemma_round_trip(self) {
    }
}

/// A truth value stands as itself.
impl Model for bool {
    open spec fn encode(self) -> ValueView {
        ValueView::Bool(self)
    }

    open spec fn decode(v: ValueView) -> Result<Self, DecodeError> {
        match v {
            ValueView::Bool(b) => Ok(b),
            _ => Err(DecodeError::InvalidType),
        }
    }

    open spec fn valid(self) -> bool {
        true
    }

    proof fn lemma_round_trip(self) {
    }
}

/// A whole number stands as itself, and is read from no number that has a
/// sign or a fraction.
impl Model for u64 {
    open spec fn encode(self) -> ValueView {
        ValueView::Number(Number::PosInt(self))
    }

    open spec fn decode(v: ValueView) -> Result<Self, DecodeError> {
        match v {
            ValueView::Number(Number::PosInt(n)) => Ok(n),
            _ => Err(DecodeError::InvalidType),
        }
    }

    open spec fn valid(self) -> bool {
        true
    }

    proof fn lemma_round_trip(self) {
    }
}

/// A number that is neither an infinity nor a NaN is written as it is, any
/// other as `null`. A whole number is read as the nearest binary64 number.
impl Model for Double {
    open spec fn encode(self) -> ValueView {
        if self.finite() {
            ValueView::Number(Number::Float(self))
        } else {
            ValueView::Null
        }
    }

    open spec fn decode(v: ValueView) -> Result<Self, DecodeError> {
        match v {
            ValueView::Number(Number::PosInt(n)) => Ok(Double::nearest(n as int)),
            ValueView::Number(Number::NegInt(i)) => Ok(Double::nearest(i as int)),
            ValueView::Number(Number::Float(d)) => Ok(d),
            _ => Err(DecodeError::InvalidType),
        }
    }

    open spec fn valid(self) -> bool {
        self.finite()
    }

    proof fn lemma_round_trip(self) {
    }
}

/// A list stands as the array of its items.
impl<T: Model> Model for Seq<T> {
    open spec fn encode(self) -> ValueView {
        ValueView::Array(self.map_values(|x: T| x.encode()))
    }

    open spec fn decode(v: ValueView) -> Result<Self, DecodeError> {
        match v {
            ValueView::Array(items) => decode_items::<T>(items),
            _ => Err(DecodeError::InvalidType),
        }
    }

    open spec fn valid(self) -> bool {
        forall|i: int| 0 <= i < self.len() ==> (#[trigger] self[i]).valid()
    }

    proof fn lemma_round_trip(self) {
        lemma_decode_items(self);
    }
}

/// The values that the items of an array stand for, or the error of the first
/// item that stands for none.
pub open spec fn decode_items<T: Model>(items: Seq<ValueView>) -> Result<Seq<T>, DecodeError>
    decreases items.len(),
{
    if items.len() == 0 {
        Ok(Seq::empty())
    } else {
        match decode_items::<T>(items.drop_last()) {
            Err(e) => Err(e),
            Ok(init) => match T::decode(items.last()) {
                Err(e) => Err(e),
                Ok(x) => Ok(init.push(x)),
            },
        }
    }
}

/// The items of a list are read back from the array that they were written to.
pub proof fn lemma_decode_items<T: Model>(s: Seq<T>)
    requires
        s.valid(),
    ensures
        decode_items::<T>(s.map_values(|x: T| x.encode())) == Ok::<Seq<T>, DecodeError>(s),
    decreases s.len(),
{
    let items = s.map_values(|x: T| x.encode());
    if s.len() > 0 {
        assert(items.drop_last() =~= s.drop_last().map_values(|x: T| x.encode()));
        lemma_decode_items(s.drop_last());
        s.last().lemma_round_trip();
        assert(s.drop_last().push(s.last()) =~= s);
    } else {
        assert(s =~= Seq::empty());
    }
}

/// Where a prefix of an array cannot be read, the array cannot, for the same reason.
pub proof fn lemma_decode_items_prefix<T: Model>(items: Seq<ValueView>, n: int)
    requires
        0 <= n <= items.len(),
        decode_items::<T>(items.take(n)) is Err,
    ensures
        decode_items::<T>(items) == decode_items::<T>(items.take(n)),
    decreases items.len(),
{
    if n < items.len() {
        assert(items.drop_last().take(n) =~= items.take(n));
        lemma_decode_items_prefix::<T>(items.drop_last(), n);
    } else {
        assert(items.take(n) =~= items);
    }
}

/// What the fields of an object hold under a key: the tree of the first
/// field that has the key.
#[verifier::opaque]
pub open spec fn lookup(fields: Fields, key: Seq<char>) -> Option<ValueView>
    decreases fields.len(),
{
    if fields.len() == 0 {
        None
    } else if fields[0].0 == key {
        Some(fields[0].1)
    } else {
        lookup(fields.drop_first(), key)
    }
}

/// The field of a value that is always written.
#[verifier::opaque]
pub open spec fn one(key: Seq<char>, v: ValueView) -> Fields {
    seq![(key, v)]
}

/// The field of a value that may be left out: one field where the value is
/// set, none where it is not.
#[verifier::opaque]
pub open spec fn maybe<T: Model>(key: Seq<char>, x: Option<T>) -> Fields {
    match x {
        Some(v) => seq![(key, v.encode())],
        None => Seq::empty(),
    }
}

/// The field of a value that may be unknown: one field, which holds `null`
/// where the value is not set.
#[verifier::opaque]
pub open spec fn nullable<T: Model>(key: Seq<char>, x: Option<T>) -> Fields {
    match x {
        Some(v) => seq![(key, v.encode())],
        None => seq![(key, ValueView::Null)],
    }
}

/// The field of a list: one field that holds an array, none where the list has
/// no items.
#[verifier::opaque]
pub open spec fn unless_empty<T: Model>(key: Seq<char>, items: Seq<T>) -> Fields {
    if items.len() == 0 {
        Seq::empty()
    } else {
        seq![(key, items.encode())]
    }
}

/// What the field of a value that may be left out holds.
pub open spec fn written<T: Model>(x: Option<T>) -> Option<ValueView> {
    match x {
        Some(v) => Some(v.encode()),
        None => None,
    }
}

/// What the field of a value that may be unknown holds.
pub open spec fn or_null<T: Model>(x: Option<T>) -> ValueView {
    match x {
        Some(v) => v.encode(),
        None => ValueView::Null,
    }
}

/// What the field of a list holds.
pub open spec fn written_list<T: Model>(items: Seq<T>) -> Option<ValueView> {
    if items.len() > 0 {
        Some(items.encode())
    } else {
        None
    }
}

/// The value of a field that must be there.
pub open spec fn required<T: Model>(fields: Fields, key: &'static str) -> Result<T, DecodeError> {
    match lookup(fields, key@) {
        Some(v) => T::decode(v),
        None => Err(DecodeError::MissingField(key)),
    }
}

/// The value of a field that may be left out. A field that holds `null`
/// counts as left out.
pub open spec fn optional<T: Model>(fields: Fields, key: &'static str) -> Result<
    Option<T>,
    DecodeError,
> {
    match lookup(fields, key@) {
        None => Ok(None),
        Some(ValueView::Null) => Ok(None),
        Some(v) => match T::decode(v) {
            Ok(x) => Ok(Some(x)),
            Err(e) => Err(e),
        },
    }
}

/// The list of a field. Where the field is left out, the list has no items.
pub open spec fn listed<T: Model>(fields: Fields, key: &'static str) -> Result<
    Seq<T>,
    DecodeError,
> {
    match lookup(fields, key@) {
        None => Ok(Seq::empty()),
        Some(v) => Seq::<T>::decode(v),
    }
}

/// No fields hold nothing.
pub broadcast proof fn lemma_lookup_empty(key: Seq<char>)
    ensures
        #[trigger] lookup(Seq::empty(), key) is None,
{
    reveal(lookup);
}

/// A key is looked up in the first of two rows of fields, and in the second
/// where the first does not hold it.
pub broadcast proof fn lemma_lookup_add(a: Fields, b: Fields, key: Seq<char>)
    ensures
        #[trigger] lookup(a + b, key) == if lookup(a, key) is Some {
            lookup(a, key)
        } else {
            lookup(b, key)
        },
    decreases a.len(),
{
    reveal_with_fuel(lookup, 2);
    if a.len() == 0 {
        assert(a + b =~= b);
    } else {
        assert((a + b).drop_first() =~= a.drop_first() + b);
        lemma_lookup_add(a.drop_first(), b, key);
    }
}

/// What a field that is always written holds under a key.
pub broadcast proof fn lemma_lookup_one(k: Seq<char>, v: ValueView, key: Seq<char>)
    ensures
        #[trigger] lookup(one(k, v), key) == if k == key {
            Some(v)
        } else {
            None
        },
{
    reveal_with_fuel(lookup, 2);
    reveal(one);
    assert(one(k, v).drop_first() =~= Seq::empty());
}

/// What a field that may be left out holds under a key.
pub broadcast proof fn lemma_lookup_maybe<T: Model>(k: Seq<char>, x: Option<T>, key: Seq<char>)
    ensures
        #[trigger] lookup(maybe(k, x), key) == if k == key {
            written(x)
        } else {
            None
        },
{
    reveal_with_fuel(lookup, 2);
    reveal(maybe);
    if x is Some {
        assert(maybe(k, x).drop_first() =~= Seq::empty());
    }
}

/// What a field that may be unknown holds under a key.
pub broadcast proof fn lemma_lookup_nullable<T: Model>(k: Seq<char>, x: Option<T>, key: Seq<char>)
    ensures
        #[trigger] lookup(nullable(k, x), key) == if k == key {
            Some(or_null(x))
        } else {
            None
        },
{
    reveal_with_fuel(lookup, 2);
    reveal(nullable);
    assert(nullable(k, x).drop_first() =~= Seq::empty());
}

/// What the field of a list holds under a key.
pub broadcast proof fn lemma_lookup_unless_empty<T: Model>(
    k: Seq<char>,
    items: Seq<T>,
    key: Seq<char>,
)
    ensures
        #[trigger] lookup(unless_empty(k, items), key) == if k == key {
            written_list(items)
        } else {
            None
        },
{
    reveal_with_fuel(lookup, 2);
    reveal(unless_empty);
    if items.len() > 0 {
        assert(unless_empty(k, items).drop_first() =~= Seq::empty());
    }
}

/// The length of a string literal and its first 24 characters, as
/// `reveal_strlit` gives them. No key of the schema is longer, so that any two
/// keys whose literals are revealed are known to differ.
pub broadcast proof fn lemma_literal(s: &'static str)
    ensures
        (#[trigger] s@).len() == strslice_len(s),
        s@[0] == strslice_get_char(s, 0),
        s@[1] == strslice_get_char(s, 1),
        s@[2] == strslice_get_char(s, 2),
        s@[3] == strslice_get_char(s, 3),
        s@[4] == strslice_get_char(s, 4),
        s@[5] == strslice_get_char(s, 5),
        s@[6] == strslice_get_char(s, 6),
        s@[7] == strslice_get_char(s, 7),
        s@[8] == strslice_get_char(s, 8),
        s@[9] == strslice_get_char(s, 9),
        s@[10] == strslice_get_char(s, 10),
        s@[11] == strslice_get_char(s, 11),
        s@[12] == strslice_get_char(s, 12),
        s@[13] == strslice_get_char(s, 13),
        s@[14] == strslice_get_char(s, 14),
        s@[15] == strslice_get_char(s, 15),
        s@[16] == strslice_get_char(s, 16),
        s@[17] == strslice_get_char(s, 17),
        s@[18] == strslice_get_char(s, 18),
        s@[19] == strslice_get_char(s, 19),
        s@[20] == strslice_get_char(s, 20),
        s@[21] == strslice_get_char(s, 21),
        s@[22] == strslice_get_char(s, 22),
        s@[23] == strslice_get_char(s, 23),
{
    vstd::string::axiom_str_literal_len(s);
    vstd::string::axiom_str_literal_get_char(s, 0);
    vstd::string::axiom_str_literal_get_char(s, 1);
    vstd::string::axiom_str_literal_get_char(s, 2);
    vstd::string::axiom_str_literal_get_char(s, 3);
    vstd::string::axiom_str_literal_get_char(s, 4);
    vstd::string::axiom_str_literal_get_char(s, 5);
    vstd::string::axiom_str_literal_get_char(s, 6);
    vstd::string::axiom_str_literal_get_char(s, 7);
    vstd::string::axiom_str_literal_get_char(s, 8);
    vstd::string::axiom_str_literal_get_char(s, 9);
    vstd::string::axiom_str_literal_get_char(s, 10);
    vstd::string::axiom_str_literal_get_char(s, 11);
    vstd::string::axiom_str_literal_get_char(s, 12);
    vstd::string::axiom_str_literal_get_char(s, 13);
    vstd::string::axiom_str_literal_get_char(s, 14);
    vstd::string::axiom_str_literal_get_char(s, 15);
    vstd::string::axiom_str_literal_get_char(s, 16);
    vstd::string::axiom_str_literal_get_char(s, 17);
    vstd::string::axiom_str_literal_get_char(s, 18);
    vstd::string::axiom_str_literal_get_char(s, 19);
    vstd::string::axiom_str_literal_get_char(s, 20);
    vstd::string::axiom_str_literal_get_char(s, 21);
    vstd::string::axiom_str_literal_get_char(s, 22);
    vstd::string::axiom_str_literal_get_char(s, 23);
}

/// What is known of looking up the keys of written fields.
pub broadcast group group_lookup {
    lemma_literal,
    lemma_lookup_empty,
    lemma_lookup_add,
    lemma_lookup_one,
    lemma_lookup_maybe,
    lemma_lookup_nullable,
    lemma_lookup_unless_empty,
}

/// A field that was written is read back as it was.
pub proof fn lemma_required<T: Model>(fields: Fields, key: &'static str, x: T)
    requires
        lookup(fields, key@) == Some(x.encode()),
        x.valid(),
    ensures
        required::<T>(fields, key) == Ok::<T, DecodeError>(x),
{
    x.lemma_round_trip();
}

/// A field that was written where its value is set is read back as it was.
pub proof fn lemma_optional<T: Model>(fields: Fields, key: &'static str, x: Option<T>)
    requires
        lookup(fields, key@) == written(x),
        x matches Some(v) ==> v.valid(),
    ensures
        optional::<T>(fields, key) == Ok::<Option<T>, DecodeError>(x),
{
    if x is Some {
        x->0.lemma_round_trip();
    }
}

/// A field that holds `null` where its value is not set is read back as it was.
pub proof fn lemma_nullable<T: Model>(fields: Fields, key: &'static str, x: Option<T>)
    requires
        lookup(fields, key@) == Some(or_null(x)),
        x matches Some(v) ==> v.valid(),
    ensures
        optional::<T>(fields, key) == Ok::<Option<T>, DecodeError>(x),
{
    if x is Some {
        x->0.lemma_round_trip();
    }
}

/// An array that was written where it has items is read back as it was.
pub proof fn lemma_listed<T: Model>(fields: Fields, key: &'static str, items: Seq<T>)
    requires
        lookup(fields, key@) == written_list(items),
        items.valid(),
    ensures
        listed::<T>(fields, key) == Ok::<Seq<T>, DecodeError>(items),
{
    if items.len() > 0 {
        items.lemma_round_trip();
    } else {
        assert(items =~= Seq::empty());
    }
}

/// Whether the result of reading a tree is what the model names: the value
/// whose model it names, or the error that it names.
pub open spec fn decoded<T: DeepView>(
    r: Result<T, DecodeError>,
    m: Result<T::V, DecodeError>,
) -> bool {
    match r {
        Ok(x) => m == Ok::<T::V, DecodeError>(x.deep_view()),
        Err(e) => m == Err::<T::V, DecodeError>(e),
    }
}

/// A value of the schema, which can be written into a document tree and read
/// from one as its model says.
pub trait Codec: DeepView<V: Model> + Sized {
    /// The tree that stands for this value.
    fn to_value(&self) -> (r: Value)
        ensures
            r@ == self.deep_view().encode(),
    ;

    /// The value that a tree stands for.
    fn from_value(v: &Value) -> (r: Result<Self, DecodeError>)
        ensures
            decoded(r, Self::V::decode(v@)),
    ;
}

impl Codec for String {
    fn to_value(&self) -> (r: Value) {
        Value::String(self.clone())
    }

    fn from_value(v: &Value) -> (r: Result<Self, DecodeError>) {
        match v {
            Value::String(s) => Ok(s.clone()),
            _ => Err(DecodeError::InvalidType),
        }
    }
}

impl Codec for bool {
    fn to_value(&self) -> (r: Value) {
        Value::Bool(*self)
    }

    fn from_value(v: &Value) -> (r: Result<Self, DecodeError>) {
        match v {
            Value::Bool(b) => Ok(*b),
            _ => Err(DecodeError::InvalidType),
        }
    }
}

impl Codec for u64 {
    fn to_value(&self) -> (r: Value) {
        Value::Number(Number::PosInt(*self))
    }

    fn from_value(v: &Value) -> (r: Result<Self, DecodeError>) {
        match v {
            Value::Number(Number::PosInt(n)) => Ok(*n),
            _ => Err(DecodeError::InvalidType),
        }
    }
}

impl Codec for Double {
    fn to_value(&self) -> (r: Value) {
        if self.is_finite() {
            Value::Number(Number::Float(*self))
        } else {
            Value::Null
        }
    }

    fn from_value(v: &Value) -> (r: Result<Self, DecodeError>) {
        match v {
            Value::Number(Number::PosInt(n)) => Ok(Double::from_u64(*n)),
            Value::Number(Number::NegInt(i)) => Ok(Double::from_i64(*i)),
            Value::Number(Number::Float(d)) => Ok(*d),
            _ => Err(DecodeError::InvalidType),
        }
    }
}

impl<T: Codec> Codec for Vec<T> where T::V: Model {
    fn to_value(&self) -> (r: Value) {
        broadcast use group_value_view;

        let mut out: Vec<Value> = Vec::new();
        let mut i: usize = 0;
        while i < self.len()
            invariant
                i <= self.len(),
                out.len() == i,
                forall|j: int| 0 <= j < i ==> out[j]@ == self[j].deep_view().encode(),
            decreases self.len() - i,
        {
            out.push(self[i].to_value());
            i += 1;
        }
        assert(out.deep_view() =~= self.deep_view().map_values(|x: T::V| x.encode()));
        Value::Array(out)
    }

    fn from_value(v: &Value) -> (r: Result<Self, DecodeError>) {
        broadcast use group_value_view;

        match v {
            Value::Array(items) => {
                let mut out: Vec<T> = Vec::new();
                let mut i: usize = 0;
                let ghost all = items.deep_view();
                assert(all.take(0) =~= Seq::empty());
                assert(out.deep_view() =~= Seq::empty());
                while i < items.len()
                    invariant
                        i <= items.len(),
                        all == items.deep_view(),
                        v@ == ValueView::Array(all),
                        decode_items::<T::V>(all.take(i as int)) == Ok::<Seq<T::V>, DecodeError>(
                            out.deep_view(),
                        ),
                    decreases items.len() - i,
                {
                    assert(all.take(i + 1).drop_last() =~= all.take(i as int));
                    assert(all.take(i + 1).last() == items[i as int]@);
                    match T::from_value(&items[i]) {
                        Ok(x) => {
                            let ghost before = out.deep_view();
                            out.push(x);
                            assert(out.deep_view() =~= before.push(x.deep_view()));
                        },
                        Err(e) => {
                            proof {
                                lemma_decode_items_prefix::<T::V>(all, i + 1);
                            }
                            return Err(e);
                        },
                    }
                    i += 1;
                }
                assert(all.take(i as int) =~= all);
                Ok(out)
            },
            _ => Err(DecodeError::InvalidType),
        }
    }
}

/// The tree of the first field that has the key `key`.
pub fn find<'a>(fields: &'a Vec<(String, Value)>, key: &str) -> (r: Option<&'a Value>)
    ensures
        r.deep_view() == lookup(fields.deep_view(), key@),
{
    let ghost all = fields.deep_view();
    let mut i: usize = 0;
    assert(all.skip(0) =~= all);
    while i < fields.len()
        invariant
            i <= fields.len(),
            all == fields.deep_view(),
            lookup(all, key@) == lookup(all.skip(i as int), key@),
        decreases fields.len() - i,
    {
        proof {
            reveal(lookup);
            assert(all.skip(i as int).drop_first() =~= all.skip(i + 1));
        }
        if str_eq(fields[i].0.as_str(), key) {
            return Some(&fields[i].1);
        }
        i += 1;
    }
    proof {
        reveal(lookup);
    }
    None
}

/// Appends the field `key` with the tree of `x`.
pub fn put<T: Codec>(
    fields: &mut Vec<(String, Value)>,
    key: &'static str,
    x: &T,
) where T::V: Model
    ensures
        final(fields).deep_view() == old(fields).deep_view() + one(key@, x.deep_view().encode()),
{
    let ghost before = fields.deep_view();
    reveal(one);
    fields.push((key.to_owned(), x.to_value()));
    assert(fields.deep_view() =~= before + one(key@, x.deep_view().encode()));
}

/// Appends the field `key` with the tree of the value of `x`, if it is set.
pub fn put_some<T: Codec>(
    fields: &mut Vec<(String, Value)>,
    key: &'static str,
    x: &Option<T>,
) where T::V: Model
    ensures
        final(fields).deep_view() == old(fields).deep_view() + maybe(key@, x.deep_view()),
{
    let ghost before = fields.deep_view();
    reveal(maybe);
    match x {
        Some(v) => {
            fields.push((key.to_owned(), v.to_value()));
        },
        None => {},
    }
    assert(fields.deep_view() =~= before + maybe(key@, x.deep_view()));
}

/// Appends the field `key` with the tree of the value of `x`, or with `null`.
pub fn put_nullable<T: Codec>(
    fields: &mut Vec<(String, Value)>,
    key: &'static str,
    x: &Option<T>,
) where T::V: Model
    ensures
        final(fields).deep_view() == old(fields).deep_view() + nullable(key@, x.deep_view()),
{
    let ghost before = fields.deep_view();
    reveal(nullable);
    match x {
        Some(v) => {
            fields.push((key.to_owned(), v.to_value()));
        },
        None => {
            fields.push((key.to_owned(), Value::Null));
        },
    }
    assert(fields.deep_view() =~= before + nullable(key@, x.deep_view()));
}

/// Appends the field `key` with the array of `items`, if there are any.
pub fn put_list<T: Codec>(
    fields: &mut Vec<(String, Value)>,
    key: &'static str,
    items: &Vec<T>,
) where T::V: Model
    ensures
        final(fields).deep_view() == old(fields).deep_view() + unless_empty(
            key@,
            items.deep_view(),
        ),
{
    let ghost before = fields.deep_view();
    reveal(unless_empty);
    if items.len() > 0 {
        fields.push((key.to_owned(), items.to_value()));
    }
    assert(fields.deep_view() =~= before + unless_empty(key@, items.deep_view()));
}

/// Reads the field `key`, which must be there.
pub fn get<T: Codec>(fields: &Vec<(String, Value)>, key: &'static str) -> (r: Result<
    T,
    DecodeError,
>) where T::V: Model
    ensures
        decoded(r, required::<T::V>(fields.deep_view(), key)),
{
    match find(fields, key) {
        Some(v) => T::from_value(v),
        None => Err(DecodeError::MissingField(key)),
    }
}

/// Reads the field `key`, which may be left out.
pub fn get_some<T: Codec>(fields: &Vec<(String, Value)>, key: &'static str) -> (r: Result<
    Option<T>,
    DecodeError,
>) where T::V: Model
    ensures
        decoded(r, optional::<T::V>(fields.deep_view(), key)),
{
    match find(fields, key) {
        None => Ok(None),
        Some(Value::Null) => Ok(None),
        Some(v) => match T::from_value(v) {
            Ok(x) => Ok(Some(x)),
            Err(e) => Err(e),
        },
    }
}

/// Reads the array of the field `key`; no items where the field is left out.
pub fn get_list<T: Codec>(fields: &Vec<(String, Value)>, key: &'static str) -> (r: Result<
    Vec<T>,
    DecodeError,
>) where T::V: Model
    ensures
        decoded(r, listed::<T::V>(fields.deep_view(), key)),
{
    match find(fields, key) {
        None => {
            let r: Vec<T> = Vec::new();
            assert(r.deep_view() =~= Seq::empty());
            Ok(r)
        },
        Some(v) => Vec::<T>::from_value(v),
    }
}

} // verus!
