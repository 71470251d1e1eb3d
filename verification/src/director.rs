//! Whether a message loop goes on.
use vstd::prelude::*;

verus! {

#[derive(Copy, Clone, Debug, PartialEq, Eq, Structural)]
pub enum ScanFlow {
    Break,
    Continue,
}

} // verus!
