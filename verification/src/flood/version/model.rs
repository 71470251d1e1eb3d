//! The version counter that decides whether a signal or a timeout is new.
use vstd::prelude::*;
use vstd::std_specs::convert::FromSpec;
use vstd::std_specs::convert::FromSpecImpl;

verus! {

/// Whether a counter has been bumped at least once.
#[derive(Copy, Clone, PartialEq, Eq, Debug, Structural)]
pub enum Enabled {
    True,
    False,
}

/// A version number paired with a flag that says whether it counts at all.
#[derive(Copy, Clone, PartialEq, Eq, Debug, Structural)]
pub struct Counter {
    pub number: u64,
    pub enabled: Enabled,
}

impl Counter {
    /// `self` supersedes `other`: an enabled counter supersedes any disabled
    /// one and an enabled one with a smaller number; a disabled counter
    /// supersedes nothing.
    pub open spec fn supersedes(self, other: Counter) -> bool {
        match (self.enabled, other.enabled) {
            (Enabled::True, Enabled::True) => self.number > other.number,
            (Enabled::True, Enabled::False) => true,
            (Enabled::False, _) => false,
        }
    }

    /// `self` supersedes an optional predecessor; nothing at all is
    /// superseded by exactly the enabled counters.
    pub open spec fn supersedes_option(self, other: Option<Counter>) -> bool {
        match other {
            Some(o) => self.supersedes(o),
            None => self.enabled == Enabled::True,
        }
    }

    /// The counter after one bump.
    pub open spec fn bumped(self) -> Counter {
        Counter { number: (self.number + 1) as u64, enabled: Enabled::True }
    }

    pub fn enabled() -> (c: Self)
        ensures
            c == (Counter { number: 1, enabled: Enabled::True }),
    {
        Counter { number: 1, enabled: Enabled::True }
    }

    /// The counter that a first bump turns into `enabled()`.
    pub fn enabled_after_bump() -> (c: Self)
        ensures
            c == (Counter { number: 0, enabled: Enabled::False }),
            c.bumped() == Counter::enabled_spec(),
    {
        Counter { number: 0, enabled: Enabled::False }
    }

    pub open spec fn enabled_spec() -> Counter {
        Counter { number: 1, enabled: Enabled::True }
    }

    pub fn upgrades(&self, other: &Self) -> (r: bool)
        ensures
            r == self.supersedes(*other),
    {
        match (self.enabled, other.enabled) {
            (Enabled::True, Enabled::True) => self.number > other.number,
            (Enabled::True, Enabled::False) => true,
            (Enabled::False, Enabled::True) | (Enabled::False, Enabled::False) => false,
        }
    }

    pub fn upgrades_option(&self, other: &Option<Self>) -> (r: bool)
        ensures
            r == self.supersedes_option(*other),
    {
        match other {
            Some(other) => self.upgrades(other),
            None => match self.enabled {
                Enabled::True => true,
                Enabled::False => false,
            },
        }
    }

    pub fn bump(&mut self)
        requires
            old(self).number < u64::MAX,
        ensures
            *final(self) == old(self).bumped(),
    {
        self.number = self.number + 1;
        self.enabled = Enabled::True;
    }
}

impl Default for Counter {
    fn default() -> (c: Self)
        ensures
            c == (Counter { number: 0, enabled: Enabled::False }),
    {
        Counter { number: 0, enabled: Enabled::False }
    }
}

impl From<(u64, Enabled)> for Counter {
    fn from(parts: (u64, Enabled)) -> (c: Self) {
        Counter { number: parts.0, enabled: parts.1 }
    }
}

impl FromSpecImpl<(u64, Enabled)> for Counter {
    open spec fn obeys_from_spec() -> bool {
        true
    }

    open spec fn from_spec(parts: (u64, Enabled)) -> Counter {
        Counter { number: parts.0, enabled: parts.1 }
    }
}

impl From<Counter> for (u64, Enabled) {
    fn from(counter: Counter) -> (parts: Self) {
        (counter.number, counter.enabled)
    }
}

impl FromSpecImpl<Counter> for (u64, Enabled) {
    open spec fn obeys_from_spec() -> bool {
        true
    }

    open spec fn from_spec(counter: Counter) -> (u64, Enabled) {
        (counter.number, counter.enabled)
    }
}

/// No counter supersedes itself.
pub proof fn lemma_supersedes_irreflexive(c: Counter)
    ensures
        !c.supersedes(c),
{
}

/// Superseding is transitive.
pub proof fn lemma_supersedes_transitive(a: Counter, b: Counter, c: Counter)
    requires
        a.supersedes(b),
        b.supersedes(c),
    ensures
        a.supersedes(c),
{
}

/// Of two counters, at most one supersedes the other.
pub proof fn lemma_supersedes_asymmetric(a: Counter, b: Counter)
    requires
        a.supersedes(b),
    ensures
        !b.supersedes(a),
{
}

/// A bumped counter supersedes the counter it was bumped from, and supersedes
/// having no counter at all.
pub proof fn lemma_bumped_supersedes(c: Counter)
    requires
        c.number < u64::MAX,
    ensures
        c.bumped().supersedes(c),
        c.bumped().supersedes_option(None),
{
}

/// A disabled counter supersedes nothing, and an enabled counter supersedes
/// every disabled one.
pub proof fn lemma_enabled_decides(c: Counter, other: Option<Counter>)
    ensures
        c.enabled == Enabled::False ==> !c.supersedes_option(other),
        (c.enabled == Enabled::True && (other matches Some(o) && o.enabled == Enabled::False))
            ==> c.supersedes_option(other),
{
}

/// Building a counter from a pair and taking the pair back gives the same
/// pair, and the other way round.
pub proof fn lemma_tuple_round_trip(parts: (u64, Enabled), c: Counter)
    ensures
        <(u64, Enabled) as FromSpec<Counter>>::from_spec(
            <Counter as FromSpec<(u64, Enabled)>>::from_spec(parts),
        ) == parts,
        <Counter as FromSpec<(u64, Enabled)>>::from_spec(
            <(u64, Enabled) as FromSpec<Counter>>::from_spec(c),
        ) == c,
{
}

} // verus!
