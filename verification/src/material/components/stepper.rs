//! A horizontal stepper: the steps before the active one are completed,
//! the active one is highlighted and the rest are inactive.
use vstd::prelude::*;

verus! {

#[derive(Copy, Clone, PartialEq, Debug)]
pub struct Step<'a> {
    pub label: &'a str,
}

#[derive(Copy, Clone, PartialEq, Eq, Debug, Structural)]
pub enum StepCondition {
    Active,
    Inactive,
    Completed,
}

#[derive(Copy, Clone, PartialEq, Eq, Debug, Default)]
pub struct StepperMdl {}

/// The condition of the step at `index` when the step at `active_index` is
/// the active one.
pub open spec fn condition_of(index: usize, active_index: usize) -> StepCondition {
    if index < active_index {
        StepCondition::Completed
    } else if index == active_index {
        StepCondition::Active
    } else {
        StepCondition::Inactive
    }
}

pub fn step_condition(index: usize, active_index: usize) -> (condition: StepCondition)
    ensures
        condition == condition_of(index, active_index),
{
    if index < active_index {
        StepCondition::Completed
    } else if index == active_index {
        StepCondition::Active
    } else {
        StepCondition::Inactive
    }
}

/// The conditions of `count` steps when the step at `active_index` is the
/// active one, in step order.
pub fn step_conditions(count: usize, active_index: usize) -> (conditions: Vec<StepCondition>)
    ensures
        conditions@.len() == count,
        forall|i: int| 0 <= i < count ==> conditions@[i] == condition_of(i as usize, active_index),
{
    let mut conditions: Vec<StepCondition> = Vec::new();
    let mut index: usize = 0;
    while index < count
        invariant
            index <= count,
            conditions@.len() == index,
            forall|i: int| 0 <= i < index ==> conditions@[i] == condition_of(i as usize, active_index),
        decreases count - index,
    {
        conditions.push(step_condition(index, active_index));
        index = index + 1;
    }
    conditions
}

/// Exactly the step at the active index is active, and every step before
/// it is completed.
pub proof fn lemma_one_active_step(index: usize, active_index: usize)
    ensures
        condition_of(index, active_index) == StepCondition::Active <==> index == active_index,
        condition_of(index, active_index) == StepCondition::Completed <==> index < active_index,
{
}

} // verus!
