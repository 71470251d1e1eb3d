//! A value tagged with a version counter. A newer version of a value is one
//! whose counter supersedes the older one's.
use vstd::prelude::*;
use vstd::std_specs::convert::FromSpec;
use vstd::std_specs::convert::FromSpecImpl;

pub mod model;

pub use self::model::{Counter, Enabled};

verus! {

#[derive(Clone, PartialEq, Debug)]
pub struct Version<T> {
    pub value: T,
    pub counter: Counter,
}

impl<T> Version<T> {
    pub fn upgrades(&self, other: &Self) -> (r: bool)
        ensures
            r == self.counter.supersedes(other.counter),
    {
        self.counter.upgrades(&other.counter)
    }

    pub fn upgrades_option(&self, other: &Option<Self>) -> (r: bool)
        ensures
            r == match *other {
                Some(o) => self.counter.supersedes(o.counter),
                None => self.counter.supersedes_option(None),
            },
    {
        match other {
            Some(other) => self.upgrades(other),
            None => self.counter.upgrades_option(&None),
        }
    }

    /// A new version holding `value`, with the counter bumped once.
    pub fn bump(&self, value: T) -> (v: Self)
        requires
            self.counter.number < u64::MAX,
        ensures
            v.value == value,
            v.counter == self.counter.bumped(),
    {
        let mut counter = self.counter;
        counter.bump();
        Version { value, counter }
    }
}

impl<T> From<(T, Counter)> for Version<T> {
    fn from(parts: (T, Counter)) -> (v: Self) {
        Version { value: parts.0, counter: parts.1 }
    }
}

impl<T> FromSpecImpl<(T, Counter)> for Version<T> {
    open spec fn obeys_from_spec() -> bool {
        true
    }

    open spec fn from_spec(parts: (T, Counter)) -> Version<T> {
        Version { value: parts.0, counter: parts.1 }
    }
}

impl<T> From<T> for Version<T> {
    fn from(value: T) -> (v: Self) {
        Version { value, counter: Counter { number: 0, enabled: Enabled::False } }
    }
}

impl<T> FromSpecImpl<T> for Version<T> {
    open spec fn obeys_from_spec() -> bool {
        true
    }

    open spec fn from_spec(value: T) -> Version<T> {
        Version { value, counter: Counter { number: 0, enabled: Enabled::False } }
    }
}

impl<T> From<Version<T>> for (T, Counter) {
    fn from(version: Version<T>) -> (parts: Self) {
        (version.value, version.counter)
    }
}

impl<T> FromSpecImpl<Version<T>> for (T, Counter) {
    open spec fn obeys_from_spec() -> bool {
        true
    }

    open spec fn from_spec(version: Version<T>) -> (T, Counter) {
        (version.value, version.counter)
    }
}

/// A bumped version upgrades the version it was bumped from, and upgrades
/// having no version at all; the original upgrades neither itself nor its
/// bumped successor.
pub proof fn lemma_bump_upgrades<T>(v: Version<T>, value: T)
    requires
        v.counter.number < u64::MAX,
    ensures
        ({
            let b = Version { value, counter: v.counter.bumped() };
            &&& b.counter.supersedes(v.counter)
            &&& b.counter.supersedes_option(None)
            &&& !v.counter.supersedes(v.counter)
            &&& !v.counter.supersedes(b.counter)
        }),
{
}

/// Splitting a version into its value and counter and joining them again
/// gives the same version, and the other way round.
pub proof fn lemma_tuple_round_trip<T>(parts: (T, Counter), v: Version<T>)
    ensures
        <(T, Counter) as FromSpec<Version<T>>>::from_spec(
            <Version<T> as FromSpec<(T, Counter)>>::from_spec(parts),
        ) == parts,
        <Version<T> as FromSpec<(T, Counter)>>::from_spec(
            <(T, Counter) as FromSpec<Version<T>>>::from_spec(v),
        ) == v,
{
}

} // verus!
