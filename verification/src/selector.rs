//! The once-per-process counter selection, shared by all threads through one state byte.
//!
//! The byte starts [`UNSELECTED`](crate::indices::UNSELECTED). The thread that moves it to
//! [`SELECTING`](crate::indices::SELECTING) runs the selection and publishes the chosen index;
//! the others wait while it is `SELECTING` and then use the published index.

use vstd::prelude::*;

use crate::indices::{SELECTING, UNSELECTED};

verus! {

/// What a thread does after reading the selection state.
#[derive(Clone, Copy, Debug, PartialEq, Eq)]
pub enum SelectionStep {
    /// Nothing is selected: try to claim the selection.
    Claim,
    /// Another thread is selecting: spin and read again.
    Wait,
    /// This counter index is selected.
    Use(u8),
}

/// The step for an observed state byte.
pub open spec fn step_for(observed: u8) -> SelectionStep {
    if observed == UNSELECTED {
        SelectionStep::Claim
    } else if observed == SELECTING {
        SelectionStep::Wait
    } else {
        SelectionStep::Use(observed)
    }
}

/// The step for an observed state byte.
pub fn selection_step(observed: u8) -> (s: SelectionStep)
    ensures
        s == step_for(observed),
{
    if observed == UNSELECTED {
        SelectionStep::Claim
    } else if observed == SELECTING {
        SelectionStep::Wait
    } else {
        SelectionStep::Use(observed)
    }
}

/// The state byte after the claiming thread publishes `index`, which must not collide with the
/// two marker values.
pub fn publish_selection(index: u8) -> (state: u8)
    requires
        index < SELECTING,
    ensures
        state == index,
        step_for(state) == SelectionStep::Use(index),
{
    index
}

/// Once published, a selection is final: any thread that reads the published state uses that
/// index, never claims or waits again.
pub proof fn lemma_published_selection_is_used(index: u8)
    requires
        index < SELECTING,
    ensures
        step_for(index) == SelectionStep::Use(index),
{
}

/// The reported implementation name: the recorded name of the selected counter, or `"unknown"`
/// when none was recorded.
pub fn implementation(name: Option<&'static str>) -> (r: &'static str)
    ensures
        match name {
            Some(n) => r == n,
            None => r@ == "unknown"@,
        },
{
    match name {
        Some(n) => n,
        None => "unknown",
    }
}

/// The reported `Cycles` implementation name: the recorded name of the selected cycle counter,
/// or `"unknown"` when none was recorded.
pub fn cycle_implementation(name: Option<&'static str>) -> (r: &'static str)
    ensures
        match name {
            Some(n) => r == n,
            None => r@ == "unknown"@,
        },
{
    implementation(name)
}

} // verus!
