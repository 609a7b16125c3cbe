//! The custom fields of a status.

use crate::codec::{lookup, Fields};
use crate::text::{
    before, lemma_before_irreflexive, lemma_before_total, lemma_before_transitive, str_before,
    str_eq,
};
use crate::value::{Value, ValueView};
use vstd::prelude::*;

verus! {

/// Whether a key begins with `ext_`, the mark of a custom field.
pub open spec fn has_prefix(key: Seq<char>) -> bool {
    &&& key.len() >= 4
    &&& key[0] == 'e'
    &&& key[1] == 'x'
    &&& key[2] == 't'
    &&& key[3] == '_'
}

/// The name of a custom field: the key without one leading `ext_`.
pub open spec fn bare(name: Seq<char>) -> Seq<char> {
    if has_prefix(name) {
        name.skip(4)
    } else {
        name
    }
}

/// The key of a custom field: its name behind `ext_`.
pub open spec fn prefixed(name: Seq<char>) -> Seq<char> {
    seq!['e', 'x', 't', '_'] + name
}

/// Whether no name stands twice.
pub open spec fn unique_names(entries: Fields) -> bool {
    forall|i: int, j: int| 0 <= i < j < entries.len() ==> entries[i].0 != entries[j].0
}

/// Whether the names stand in the order of strings, and so each of them once.
pub open spec fn sorted_names(entries: Fields) -> bool {
    forall|i: int, j: int| 0 <= i < j < entries.len() ==> before(entries[i].0, entries[j].0)
}

/// Where the name `name` stands, if it does.
pub open spec fn position(entries: Fields, name: Seq<char>) -> Option<int> {
    if exists|i: int| 0 <= i < entries.len() && entries[i].0 == name {
        Some(choose|i: int| 0 <= i < entries.len() && entries[i].0 == name)
    } else {
        None
    }
}

/// Where the name `name` belongs among names that stand in their order:
/// behind all that stand before it.
pub open spec fn rank(entries: Fields, name: Seq<char>) -> int
    decreases entries.len(),
{
    if entries.len() == 0 {
        0
    } else if before(entries.last().0, name) {
        entries.len() as int
    } else {
        rank(entries.drop_last(), name)
    }
}

/// The entries after `name` was set to `value`: in the place where the name
/// stood, or in the place where it belongs where it did not stand.
pub open spec fn with(entries: Fields, name: Seq<char>, value: ValueView) -> Fields {
    match position(entries, name) {
        Some(i) => entries.update(i, (name, value)),
        None => entries.insert(rank(entries, name), (name, value)),
    }
}

/// The fields that stand for the custom fields: each under its name behind `ext_`.
pub open spec fn extension_fields(entries: Fields) -> Fields {
    Seq::new(entries.len(), |i: int| (prefixed(entries[i].0), entries[i].1))
}

/// Names that stand in their order stand once each.
pub proof fn lemma_sorted_unique(entries: Fields)
    requires
        sorted_names(entries),
    ensures
        unique_names(entries),
{
    assert forall|i: int, j: int| 0 <= i < j < entries.len() implies entries[i].0
        != entries[j].0 by {
        lemma_before_irreflexive(entries[i].0);
    }
}

/// A name belongs where the names before it end and the names behind it begin.
pub proof fn lemma_rank(entries: Fields, name: Seq<char>, i: int)
    requires
        sorted_names(entries),
        0 <= i <= entries.len(),
        forall|j: int| 0 <= j < i ==> before(entries[j].0, name),
        forall|j: int| i <= j < entries.len() ==> !before(entries[j].0, name),
    ensures
        rank(entries, name) == i,
    decreases entries.len(),
{
    if entries.len() > 0 && i < entries.len() {
        let init = entries.drop_last();
        assert forall|a: int, b: int| 0 <= a < b < init.len() implies before(
            init[a].0,
            init[b].0,
        ) by {
            assert(init[a] == entries[a] && init[b] == entries[b]);
        }
        assert forall|j: int| 0 <= j < i implies before(init[j].0, name) by {
            assert(init[j] == entries[j]);
        }
        assert forall|j: int| i <= j < init.len() implies !before(init[j].0, name) by {
            assert(init[j] == entries[j]);
        }
        lemma_rank(init, name, i);
    }
}

/// The last of names that stand in their order, set behind the others, gives
/// the names as they were.
pub proof fn lemma_with_last(entries: Fields)
    requires
        sorted_names(entries),
        entries.len() > 0,
    ensures
        sorted_names(entries.drop_last()),
        with(entries.drop_last(), entries.last().0, entries.last().1) == entries,
{
    let init = entries.drop_last();
    let name = entries.last().0;
    assert forall|a: int, b: int| 0 <= a < b < init.len() implies before(
        init[a].0,
        init[b].0,
    ) by {
        assert(init[a] == entries[a] && init[b] == entries[b]);
    }
    assert forall|j: int| 0 <= j < init.len() implies before(init[j].0, name) by {
        assert(init[j] == entries[j]);
    }
    lemma_rank(init, name, init.len() as int);
    assert(position(init, name) is None) by {
        if position(init, name) is Some {
            let i = position(init, name)->0;
            lemma_before_irreflexive(init[i].0);
        }
    }
    assert(init.insert(init.len() as int, entries.last()) =~= entries);
}

/// Setting a name keeps the names in their order, and so each of them once.
pub proof fn lemma_with_sorted(entries: Fields, name: Seq<char>, value: ValueView)
    requires
        sorted_names(entries),
    ensures
        sorted_names(with(entries, name, value)),
        with(entries, name, value).len() == entries.len() + if position(entries, name) is Some {
            0int
        } else {
            1int
        },
        position(with(entries, name, value), name) is Some,
        lookup(with(entries, name, value), name) == Some(value),
{
    let after = with(entries, name, value);
    match position(entries, name) {
        Some(i) => {
            assert(after[i].0 == name);
            assert forall|a: int, b: int| 0 <= a < b < after.len() implies before(
                after[a].0,
                after[b].0,
            ) by {
                assert(after[a].0 == entries[a].0 && after[b].0 == entries[b].0);
            }
            lemma_sorted_unique(after);
            lemma_lookup_unique(after, i);
        },
        None => {
            let r = rank(entries, name);
            lemma_rank_bounds(entries, name);
            assert(after[r].0 == name);
            assert forall|a: int, b: int| 0 <= a < b < after.len() implies before(
                after[a].0,
                after[b].0,
            ) by {
                if a < r && b > r {
                    assert(after[a] == entries[a] && after[b] == entries[b - 1]);
                } else if a < r && b < r {
                    assert(after[a] == entries[a] && after[b] == entries[b]);
                } else if a > r {
                    assert(after[a] == entries[a - 1] && after[b] == entries[b - 1]);
                } else if a == r {
                    assert(after[b] == entries[b - 1]);
                    lemma_before_total(entries[b - 1].0, name);
                } else {
                    assert(after[a] == entries[a]);
                }
            }
            lemma_sorted_unique(after);
            lemma_lookup_unique(after, r);
        },
    }
}

/// Where a name belongs, the names before it stand before that place and no
/// name behind it does.
pub proof fn lemma_rank_bounds(entries: Fields, name: Seq<char>)
    requires
        sorted_names(entries),
    ensures
        0 <= rank(entries, name) <= entries.len(),
        forall|j: int| 0 <= j < rank(entries, name) ==> before(entries[j].0, name),
        forall|j: int| rank(entries, name) <= j < entries.len() ==> !before(entries[j].0, name),
    decreases entries.len(),
{
    if entries.len() > 0 {
        let init = entries.drop_last();
        let last = entries.last().0;
        assert forall|a: int, b: int| 0 <= a < b < init.len() implies before(
            init[a].0,
            init[b].0,
        ) by {
            assert(init[a] == entries[a] && init[b] == entries[b]);
        }
        if before(last, name) {
            assert forall|j: int| 0 <= j < entries.len() implies before(entries[j].0, name) by {
                if j < entries.len() - 1 {
                    lemma_before_transitive(entries[j].0, last, name);
                }
            }
        } else {
            lemma_rank_bounds(init, name);
            assert forall|j: int| 0 <= j < rank(entries, name) implies before(
                entries[j].0,
                name,
            ) by {
                assert(init[j] == entries[j]);
            }
            assert forall|j: int| rank(entries, name) <= j < entries.len() implies !before(
                entries[j].0,
                name,
            ) by {
                if j < entries.len() - 1 {
                    assert(init[j] == entries[j]);
                }
            }
        }
    }
}

/// Where no name stands twice, looking a name up finds its one entry.
pub proof fn lemma_lookup_unique(entries: Fields, i: int)
    requires
        unique_names(entries),
        0 <= i < entries.len(),
    ensures
        lookup(entries, entries[i].0) == Some(entries[i].1),
    decreases i,
{
    reveal(lookup);
    if i > 0 {
        let rest = entries.drop_first();
        assert(unique_names(rest)) by {
            assert forall|a: int, b: int| 0 <= a < b < rest.len() implies rest[a].0
                != rest[b].0 by {
                assert(rest[a] == entries[a + 1]);
                assert(rest[b] == entries[b + 1]);
            }
        }
        assert(rest[i - 1] == entries[i]);
        lemma_lookup_unique(rest, i - 1);
    }
}

/// A name that is set twice, with or without `ext_` before it, stands once and
/// holds what was set last.
pub proof fn lemma_last_write_wins(
    entries: Fields,
    first: Seq<char>,
    second: Seq<char>,
    a: ValueView,
    b: ValueView,
)
    requires
        sorted_names(entries),
        bare(first) == bare(second),
    ensures
        with(with(entries, bare(first), a), bare(second), b) == with(entries, bare(first), b),
        with(with(entries, bare(first), a), bare(second), b).len() == with(
            entries,
            bare(first),
            a,
        ).len(),
{
    let name = bare(first);
    let once = with(entries, name, a);
    lemma_with_sorted(entries, name, a);
    lemma_sorted_unique(once);
    lemma_sorted_unique(entries);
    let k = position(once, name)->0;
    match position(entries, name) {
        Some(i) => {
            assert(once[i].0 == name);
            assert(k == i);
            assert(once.update(k, (name, b)) =~= entries.update(i, (name, b)));
        },
        None => {
            let r = rank(entries, name);
            lemma_rank_bounds(entries, name);
            assert(once[r].0 == name);
            assert(k == r);
            assert(once.update(k, (name, b)) =~= entries.insert(r, (name, b)));
        },
    }
}

/// Each custom field is written once: under its key stands its tree, and no
/// other custom field has that key.
pub proof fn lemma_written_once(entries: Fields, i: int)
    requires
        unique_names(entries),
        0 <= i < entries.len(),
    ensures
        unique_names(extension_fields(entries)),
        lookup(extension_fields(entries), prefixed(entries[i].0)) == Some(entries[i].1),
        forall|j: int|
            0 <= j < entries.len() && j != i ==> (#[trigger] extension_fields(entries)[j]).0
                != prefixed(entries[i].0),
{
    let written = extension_fields(entries);
    assert forall|a: int, b: int| 0 <= a < b < written.len() implies written[a].0
        != written[b].0 by {
        lemma_bare_prefixed(entries[a].0);
        lemma_bare_prefixed(entries[b].0);
    }
    lemma_lookup_unique(written, i);
}

/// The name of a prefixed name is the name.
pub proof fn lemma_bare_prefixed(name: Seq<char>)
    ensures
        has_prefix(prefixed(name)),
        bare(prefixed(name)) == name,
{
    assert(prefixed(name).skip(4) =~= name);
}

/// The custom fields of a status. Each has a name, which is kept without the
/// prefix `ext_`, and a tree. They are kept in the order of their names, so
/// that no name stands twice and two that hold the same are the same.
#[derive(Debug, PartialEq, Eq)]
pub struct Extensions {
    entries: Vec<(String, Value)>,
}

impl DeepView for Extensions {
    type V = Fields;

    closed spec fn deep_view(&self) -> Fields {
        self.entries.deep_view()
    }
}

impl View for Extensions {
    type V = Fields;

    open spec fn view(&self) -> Fields {
        self.deep_view()
    }
}

impl Default for Extensions {
    fn default() -> (r: Extensions)
        ensures
            r@ == Seq::<(Seq<char>, ValueView)>::empty(),
    {
        Extensions::new()
    }
}

impl Clone for Extensions {
    fn clone(&self) -> (r: Extensions)
        ensures
            r@ == self@,
    {
        proof {
            use_type_invariant(self);
        }
        let mut entries: Vec<(String, Value)> = Vec::new();
        let mut i: usize = 0;
        while i < self.entries.len()
            invariant
                i <= self.entries.len(),
                entries.len() == i,
                forall|j: int| 0 <= j < i ==> entries[j].deep_view() == self.entries[j].deep_view(),
            decreases self.entries.len() - i,
        {
            entries.push((self.entries[i].0.clone(), self.entries[i].1.clone()));
            i += 1;
        }
        assert(entries.deep_view() =~= self.entries.deep_view());
        Extensions { entries }
    }
}

impl Extensions {
    #[verifier::type_invariant]
    spec fn in_order(self) -> bool {
        sorted_names(self.entries.deep_view())
    }

    /// Does nothing, and lets a caller know that the names stand in their
    /// order.
    pub fn names_are_sorted(&self)
        ensures
            sorted_names(self@),
    {
        proof {
            use_type_invariant(self);
        }
    }

    /// No custom fields.
    pub fn new() -> (r: Extensions)
        ensures
            r@ == Seq::<(Seq<char>, ValueView)>::empty(),
    {
        let entries: Vec<(String, Value)> = Vec::new();
        assert(entries.deep_view() =~= Seq::empty());
        Extensions { entries }
    }

    /// How many custom fields there are.
    pub fn len(&self) -> (r: usize)
        ensures
            r == self@.len(),
    {
        self.entries.len()
    }

    /// Whether there is no custom field.
    pub fn is_empty(&self) -> (r: bool)
        ensures
            r == (self@.len() == 0),
    {
        self.entries.len() == 0
    }

    /// Where the name `name` stands.
    fn index_of(&self, name: &str) -> (r: Option<usize>)
        ensures
            match r {
                Some(i) => i < self@.len() && self@[i as int].0 == name@,
                None => forall|i: int| 0 <= i < self@.len() ==> self@[i].0 != name@,
            },
    {
        let mut i: usize = 0;
        while i < self.entries.len()
            invariant
                i <= self.entries.len(),
                forall|j: int| 0 <= j < i ==> self.entries.deep_view()[j].0 != name@,
            decreases self.entries.len() - i,
        {
            if str_eq(self.entries[i].0.as_str(), name) {
                return Some(i);
            }
            i += 1;
        }
        None
    }

    /// The tree of the custom field `name`, given with or without `ext_` before it.
    pub fn get(&self, name: &str) -> (r: Option<&Value>)
        ensures
            r.deep_view() == lookup(self@, bare(name@)),
    {
        proof {
            use_type_invariant(self);
            lemma_sorted_unique(self@);
        }
        let name = bare_name(name);
        match self.index_of(name) {
            Some(i) => {
                proof {
                    lemma_lookup_unique(self@, i as int);
                }
                Some(&self.entries[i].1)
            },
            None => {
                proof {
                    lemma_lookup_absent(self@, name@);
                }
                None
            },
        }
    }

    /// Sets the custom field `name`, given with or without `ext_` before it. A
    /// field of that name that is there gets the new tree; a new one takes its
    /// place in the order of the names.
    pub fn set(&mut self, name: &str, value: Value)
        ensures
            final(self)@ == with(old(self)@, bare(name@), value@),
    {
        let name = bare_name(name);
        let mut taken = Extensions::new();
        core::mem::swap(self, &mut taken);
        proof {
            use_type_invariant(&taken);
        }
        let ghost before_set = taken@;
        let mut entries = taken.entries;
        let mut i: usize = 0;
        while i < entries.len() && str_before(entries[i].0.as_str(), name)
            invariant
                i <= entries.len(),
                entries.deep_view() == before_set,
                forall|j: int| 0 <= j < i ==> before(before_set[j].0, name@),
            decreases entries.len() - i,
        {
            i += 1;
        }
        proof {
            assert forall|j: int| i <= j < before_set.len() implies !before(
                before_set[j].0,
                name@,
            ) by {
                if j > i && before(before_set[j].0, name@) {
                    lemma_before_transitive(before_set[i as int].0, before_set[j].0, name@);
                }
            }
            lemma_rank(before_set, name@, i as int);
            lemma_with_sorted(before_set, name@, value@);
        }
        if i < entries.len() && str_eq(entries[i].0.as_str(), name) {
            proof {
                let k = position(before_set, name@)->0;
                lemma_sorted_unique(before_set);
                assert(before_set[i as int].0 == before_set[k].0);
            }
            entries.set(i, (name.to_owned(), value));
            assert(entries.deep_view() =~= before_set.update(i as int, (name@, value@)));
        } else {
            proof {
                if position(before_set, name@) is Some {
                    let k = position(before_set, name@)->0;
                    lemma_before_irreflexive(name@);
                    if k > i {
                        lemma_before_total(before_set[i as int].0, name@);
                        lemma_before_irreflexive(name@);
                        lemma_before_transitive(name@, before_set[i as int].0, before_set[k].0);
                    }
                }
            }
            entries.insert(i, (name.to_owned(), value));
            assert(entries.deep_view() =~= before_set.insert(i as int, (name@, value@)));
        }
        *self = Extensions { entries };
    }

    /// The names of the custom fields, in their order.
    pub fn keys(&self) -> (r: Vec<String>)
        ensures
            r.deep_view() == self@.map_values(|e: (Seq<char>, ValueView)| e.0),
    {
        let mut names: Vec<String> = Vec::new();
        let mut i: usize = 0;
        while i < self.entries.len()
            invariant
                i <= self.entries.len(),
                names.len() == i,
                forall|j: int| 0 <= j < i ==> names[j]@ == self.entries[j].0@,
            decreases self.entries.len() - i,
        {
            names.push(self.entries[i].0.clone());
            i += 1;
        }
        assert(names.deep_view() =~= self@.map_values(|e: (Seq<char>, ValueView)| e.0));
        names
    }

    /// Appends one field for each custom field, under its name behind `ext_`.
    pub fn put_fields(&self, fields: &mut Vec<(String, Value)>)
        ensures
            final(fields).deep_view() == old(fields).deep_view() + extension_fields(self@),
    {
        let ghost before = fields.deep_view();
        let mut i: usize = 0;
        assert(extension_fields(self@).take(0) =~= Seq::empty());
        assert(before + Seq::empty() =~= before);
        while i < self.entries.len()
            invariant
                i <= self.entries.len(),
                fields.deep_view() == before + extension_fields(self@).take(i as int),
            decreases self.entries.len() - i,
        {
            let ghost sofar = fields.deep_view();
            let key = String::from_str("ext_").concat(self.entries[i].0.as_str());
            proof {
                reveal_strlit("ext_");
                assert(key@ =~= prefixed(self.entries[i as int].0@));
            }
            fields.push((key, self.entries[i].1.clone()));
            assert(fields.deep_view() =~= sofar.push(extension_fields(self@)[i as int]));
            assert(extension_fields(self@).take(i + 1) =~= extension_fields(self@).take(
                i as int,
            ).push(extension_fields(self@)[i as int]));
            assert(fields.deep_view() =~= before + extension_fields(self@).take(i + 1));
            i += 1;
        }
        assert(extension_fields(self@).take(i as int) =~= extension_fields(self@));
    }
}

/// A name that stands nowhere is not found.
pub proof fn lemma_lookup_absent(entries: Fields, name: Seq<char>)
    requires
        forall|i: int| 0 <= i < entries.len() ==> entries[i].0 != name,
    ensures
        lookup(entries, name) is None,
    decreases entries.len(),
{
    reveal(lookup);
    if entries.len() > 0 {
        let rest = entries.drop_first();
        assert forall|i: int| 0 <= i < rest.len() implies rest[i].0 != name by {
            assert(rest[i] == entries[i + 1]);
        }
        lemma_lookup_absent(rest, name);
    }
}

/// The name of a custom field: `name` without one leading `ext_`.
pub fn bare_name(name: &str) -> (r: &str)
    ensures
        r@ == bare(name@),
{
    let n = name.unicode_len();
    if n >= 4 && name.get_char(0) == 'e' && name.get_char(1) == 'x' && name.get_char(2) == 't'
        && name.get_char(3) == '_' {
        name.substring_char(4, n)
    } else {
        name
    }
}

} // verus!
