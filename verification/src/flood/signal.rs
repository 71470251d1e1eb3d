//! A versioned message addressed by an id. A window delivers a signal's
//! message when its version supersedes the one last seen under that id.
use vstd::prelude::*;
use super::version::Version;
use vstd::std_specs::convert::FromSpecImpl;

verus! {

#[derive(Clone, Debug)]
pub struct Signal<MsgT> {
    pub id: u64,
    pub version: Version<MsgT>,
}

impl<MsgT> Signal<MsgT> {
    /// `self` supersedes the optional signal last seen under its id.
    pub open spec fn supersedes_option(self, other: Option<Signal<MsgT>>) -> bool {
        match other {
            Some(o) => self.version.counter.supersedes(o.version.counter),
            None => self.version.counter.supersedes_option(None),
        }
    }
}

impl<MsgT: Clone> Signal<MsgT> {
    pub fn clone_value(&self) -> (v: MsgT)
        ensures
            cloned(self.version.value, v),
    {
        self.version.value.clone()
    }

    pub fn upgrades_option(&self, other: &Option<&Self>) -> (r: bool)
        ensures
            r == self.supersedes_option(
                match *other {
                    Some(o) => Some(*o),
                    None => None,
                },
            ),
    {
        match other {
            Some(other) => self.version.upgrades(&other.version),
            None => self.version.upgrades_option(&None),
        }
    }
}

impl<MsgT> From<(u64, Version<MsgT>)> for Signal<MsgT> {
    fn from(parts: (u64, Version<MsgT>)) -> (s: Self) {
        Signal { id: parts.0, version: parts.1 }
    }
}

impl<MsgT> FromSpecImpl<(u64, Version<MsgT>)> for Signal<MsgT> {
    open spec fn obeys_from_spec() -> bool {
        true
    }

    open spec fn from_spec(parts: (u64, Version<MsgT>)) -> Signal<MsgT> {
        Signal { id: parts.0, version: parts.1 }
    }
}

} // verus!
