//! The states of a single step badge.
use vstd::prelude::*;

verus! {

#[derive(Copy, Clone, PartialEq, Eq, Debug, Structural)]
pub enum StepCondition {
    Active,
    Inactive,
}

#[derive(Copy, Clone, PartialEq, Eq, Debug, Default)]
pub struct StepMdl {}

} // verus!
