//! Touches as the library's logic sees them.
use vstd::prelude::*;

verus! {

/// A phase of a touch, addressed to the touch target whose tag it carries.
/// The two trailing numbers of `Begin`, `Move` and `End` are the IEEE-754
/// bit patterns of the touch point's x and y coordinates, which the logic
/// here carries along without reading.
#[derive(Copy, Clone, PartialEq, Eq, Debug, Structural)]
pub enum TouchMsg {
    Begin(u64, u64, u64),
    Cancel(u64),
    Move(u64, u64, u64),
    End(u64, u64, u64),
}

impl TouchMsg {
    /// The tag of the touch target the message is addressed to.
    pub open spec fn target(self) -> u64 {
        match self {
            TouchMsg::Begin(tag, _, _) => tag,
            TouchMsg::Cancel(tag) => tag,
            TouchMsg::Move(tag, _, _) => tag,
            TouchMsg::End(tag, _, _) => tag,
        }
    }

    pub fn tag(&self) -> (tag: u64)
        ensures
            tag == self.target(),
    {
        match self {
            TouchMsg::Begin(tag, _, _) => *tag,
            TouchMsg::Cancel(tag) => *tag,
            TouchMsg::Move(tag, _, _) => *tag,
            TouchMsg::End(tag, _, _) => *tag,
        }
    }
}

} // verus!
