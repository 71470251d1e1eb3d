//! A value with a bare version number. Versions compare by number alone,
//! and any version is greater than no version at all.
use vstd::prelude::*;
use core::cmp::Ordering;
use vstd::std_specs::cmp::PartialEqSpec;
use vstd::std_specs::cmp::PartialOrdSpec;
use vstd::std_specs::convert::FromSpec;
use vstd::std_specs::convert::FromSpecImpl;

verus! {

#[derive(Debug)]
pub struct Version<T> {
    pub number: u64,
    pub value: T,
}

/// The ordering of two version numbers.
pub open spec fn order_of(a: u64, b: u64) -> Ordering {
    if a < b {
        Ordering::Less
    } else if a == b {
        Ordering::Equal
    } else {
        Ordering::Greater
    }
}

/// The ordering of a version number against an optional version: a missing
/// version is below every version.
pub open spec fn order_against_option<T>(a: u64, b: Option<Version<T>>) -> Ordering {
    match b {
        Some(v) => order_of(a, v.number),
        None => Ordering::Greater,
    }
}

impl<T> Version<T> {
    /// The next version, holding `value`.
    pub fn bump(&self, value: T) -> (v: Self)
        requires
            self.number < u64::MAX,
        ensures
            v.number == self.number + 1,
            v.value == value,
    {
        Version { number: self.number + 1, value }
    }
}

impl<T> PartialEq for Version<T> {
    fn eq(&self, other: &Self) -> (r: bool) {
        self.number == other.number
    }
}

impl<T> Eq for Version<T> {}

impl<T> vstd::std_specs::cmp::PartialEqSpecImpl for Version<T> {
    open spec fn obeys_eq_spec() -> bool {
        true
    }

    open spec fn eq_spec(&self, other: &Version<T>) -> bool {
        self.number == other.number
    }
}

impl<T> PartialOrd for Version<T> {
    fn partial_cmp(&self, other: &Self) -> (r: Option<Ordering>) {
        if self.number < other.number {
            Some(Ordering::Less)
        } else if self.number == other.number {
            Some(Ordering::Equal)
        } else {
            Some(Ordering::Greater)
        }
    }
}

impl<T> vstd::std_specs::cmp::PartialOrdSpecImpl for Version<T> {
    open spec fn obeys_partial_cmp_spec() -> bool {
        true
    }

    open spec fn partial_cmp_spec(&self, other: &Version<T>) -> Option<Ordering> {
        Some(order_of(self.number, other.number))
    }
}

impl<T> PartialEq<Option<Version<T>>> for Version<T> {
    fn eq(&self, other: &Option<Version<T>>) -> (r: bool) {
        match other {
            Some(other) => self.number == other.number,
            None => false,
        }
    }
}

impl<T> vstd::std_specs::cmp::PartialEqSpecImpl<Option<Version<T>>> for Version<T> {
    open spec fn obeys_eq_spec() -> bool {
        true
    }

    open spec fn eq_spec(&self, other: &Option<Version<T>>) -> bool {
        match *other {
            Some(o) => self.number == o.number,
            None => false,
        }
    }
}

impl<T> PartialOrd<Option<Version<T>>> for Version<T> {
    fn partial_cmp(&self, other: &Option<Version<T>>) -> (r: Option<Ordering>) {
        match other {
            Some(other) => self.partial_cmp(other),
            None => Some(Ordering::Greater),
        }
    }
}

impl<T> vstd::std_specs::cmp::PartialOrdSpecImpl<Option<Version<T>>> for Version<T> {
    open spec fn obeys_partial_cmp_spec() -> bool {
        true
    }

    open spec fn partial_cmp_spec(&self, other: &Option<Version<T>>) -> Option<Ordering> {
        Some(order_against_option(self.number, *other))
    }
}

impl<T> From<(u64, T)> for Version<T> {
    fn from(parts: (u64, T)) -> (v: Self) {
        Version { number: parts.0, value: parts.1 }
    }
}

impl<T> FromSpecImpl<(u64, T)> for Version<T> {
    open spec fn obeys_from_spec() -> bool {
        true
    }

    open spec fn from_spec(parts: (u64, T)) -> Version<T> {
        Version { number: parts.0, value: parts.1 }
    }
}

impl<T> From<T> for Version<T> {
    fn from(value: T) -> (v: Self) {
        Version { number: 0, value }
    }
}

impl<T> FromSpecImpl<T> for Version<T> {
    open spec fn obeys_from_spec() -> bool {
        true
    }

    open spec fn from_spec(value: T) -> Version<T> {
        Version { number: 0, value }
    }
}

impl<T> From<Version<T>> for (u64, T) {
    fn from(version: Version<T>) -> (parts: Self) {
        (version.number, version.value)
    }
}

impl<T> FromSpecImpl<Version<T>> for (u64, T) {
    open spec fn obeys_from_spec() -> bool {
        true
    }

    open spec fn from_spec(version: Version<T>) -> (u64, T) {
        (version.number, version.value)
    }
}

/// A bumped version is greater than the version it was bumped from, and
/// every version is greater than no version at all.
pub proof fn lemma_bumped_is_greater<T>(v: Version<T>, bumped: Version<T>)
    requires
        bumped.number == v.number + 1,
    ensures
        bumped.partial_cmp_spec(&v) == Some(Ordering::Greater),
        v.partial_cmp_spec(&v) == Some(Ordering::Equal),
        v.partial_cmp_spec(&None::<Version<T>>) == Some(Ordering::Greater),
{
}

/// Versions are ordered by number alone: swapping the two sides reverses
/// the order, and versions that are equal compare as equal.
pub proof fn lemma_order_by_number<T>(a: Version<T>, b: Version<T>)
    ensures
        a.eq_spec(&b) <==> a.number == b.number,
        a.eq_spec(&b) <==> a.partial_cmp_spec(&b) == Some(Ordering::Equal),
        a.partial_cmp_spec(&b) == Some(Ordering::Less) <==> b.partial_cmp_spec(&a) == Some(
            Ordering::Greater,
        ),
{
}

/// Splitting a version into its number and value and joining them again
/// gives the same version, and the other way round.
pub proof fn lemma_tuple_round_trip<T>(parts: (u64, T), v: Version<T>)
    ensures
        <(u64, T) as FromSpec<Version<T>>>::from_spec(
            <Version<T> as FromSpec<(u64, T)>>::from_spec(parts),
        ) == parts,
        <Version<T> as FromSpec<(u64, T)>>::from_spec(
            <(u64, T) as FromSpec<Version<T>>>::from_spec(v),
        ) == v,
{
}

} // verus!
