//! A value that may be left out.

use vstd::prelude::*;

verus! {

/// A value that is there or is left out. In a document a value that is left
/// out has no field at all, which is not the same as a field that says `null`.
#[derive(Copy, PartialEq, PartialOrd, Eq, Ord, Debug, Hash)]
pub enum Optional<T> {
    Value(T),
    Absent,
}

impl<T> Optional<T> {
    /// The value, which must be there.
    pub fn unwrap(self) -> (r: T)
        requires
            self is Value,
        ensures
            self == Optional::Value(r),
    {
        match self {
            Optional::Value(val) => val,
            Optional::Absent => vstd::pervasive::unreached(),
        }
    }

    /// The value, or `def` where it is left out.
    pub fn unwrap_or(self, def: T) -> (r: T)
        ensures
            r == match self {
                Optional::Value(x) => x,
                Optional::Absent => def,
            },
    {
        match self {
            Optional::Value(x) => x,
            Optional::Absent => def,
        }
    }

    /// The value, or what `f` computes where it is left out.
    pub fn unwrap_or_else<F: FnOnce() -> T>(self, f: F) -> (r: T)
        requires
            self is Absent ==> f.requires(()),
        ensures
            match self {
                Optional::Value(x) => r == x,
                Optional::Absent => f.ensures((), r),
            },
    {
        match self {
            Optional::Value(x) => x,
            Optional::Absent => f(),
        }
    }

    /// What `f` makes of the value; nothing where it is left out.
    pub fn map<U, F: FnOnce(T) -> U>(self, f: F) -> (r: Optional<U>)
        requires
            self matches Optional::Value(x) ==> f.requires((x,)),
        ensures
            match self {
                Optional::Value(x) => r matches Optional::Value(y) && f.ensures((x,), y),
                Optional::Absent => r is Absent,
            },
    {
        match self {
            Optional::Value(x) => Optional::Value(f(x)),
            Optional::Absent => Optional::Absent,
        }
    }

    /// What `f` makes of the value, or `def` where it is left out.
    pub fn map_or<U, F: FnOnce(T) -> U>(self, def: U, f: F) -> (r: U)
        requires
            self matches Optional::Value(x) ==> f.requires((x,)),
        ensures
            match self {
                Optional::Value(x) => f.ensures((x,), r),
                Optional::Absent => r == def,
            },
    {
        match self {
            Optional::Value(v) => f(v),
            Optional::Absent => def,
        }
    }

    /// A reference to the value through which it can be changed.
    pub fn as_mut(&mut self) -> (r: Optional<&mut T>)
        ensures
            match r {
                Optional::Value(x) => *old(self) == Optional::Value(*x) && *final(self)
                    == Optional::Value(*final(x)),
                Optional::Absent => *old(self) == Optional::<T>::Absent && *final(self)
                    == Optional::<T>::Absent,
            },
    {
        match self {
            Optional::Value(x) => Optional::Value(x),
            Optional::Absent => Optional::Absent,
        }
    }

    /// A reference to the value.
    pub fn as_ref(&self) -> (r: Optional<&T>)
        ensures
            match r {
                Optional::Value(x) => *self == Optional::Value(*x),
                Optional::Absent => *self == Optional::<T>::Absent,
            },
    {
        match self {
            Optional::Value(x) => Optional::Value(x),
            Optional::Absent => Optional::Absent,
        }
    }

    /// What `f` makes of the value, which may be nothing; nothing where the
    /// value is left out.
    pub fn and_then<U, F: FnOnce(T) -> Optional<U>>(self, f: F) -> (r: Optional<U>)
        requires
            self matches Optional::Value(x) ==> f.requires((x,)),
        ensures
            match self {
                Optional::Value(x) => f.ensures((x,), r),
                Optional::Absent => r is Absent,
            },
    {
        match self {
            Optional::Value(x) => f(x),
            Optional::Absent => Optional::Absent,
        }
    }

    /// Whether the value is left out.
    pub fn is_absent(&self) -> (r: bool)
        ensures
            r == (self is Absent),
    {
        match self {
            Optional::Absent => true,
            _ => false,
        }
    }
}

impl<T: Clone> Clone for Optional<T> {
    fn clone(&self) -> (r: Optional<T>)
        ensures
            match self {
                Optional::Value(x) => r matches Optional::Value(y) && cloned(*x, y),
                Optional::Absent => r is Absent,
            },
    {
        match self {
            Optional::Value(x) => Optional::Value(x.clone()),
            Optional::Absent => Optional::Absent,
        }
    }
}

impl<T> Default for Optional<T> {
    /// A value is left out until it is set.
    fn default() -> (r: Optional<T>)
        ensures
            r is Absent,
    {
        Optional::Absent
    }
}

impl<T> From<Optional<T>> for Option<T> {
    fn from(x: Optional<T>) -> (r: Option<T>) {
        match x {
            Optional::Value(v) => Some(v),
            Optional::Absent => None,
        }
    }
}

impl<T> vstd::std_specs::convert::FromSpecImpl<Optional<T>> for Option<T> {
    open spec fn obeys_from_spec() -> bool {
        true
    }

    open spec fn from_spec(x: Optional<T>) -> Option<T> {
        match x {
            Optional::Value(v) => Some(v),
            Optional::Absent => None,
        }
    }
}

} // verus!
