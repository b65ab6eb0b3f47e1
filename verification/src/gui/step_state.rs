//! Pausing and single-stepping, as the user interface starts it.

use vstd::prelude::*;

verus! {

/// State of execution. This is used to step per-instruction and to pause the CPU.
#[derive(Clone, Copy, Debug, PartialEq, Eq, Structural)]
pub struct StepState {
    pub paused: bool,
    pub step: bool,
}

impl StepState {
    /// The interface starts paused, with one step pending.
    pub fn default() -> (r: StepState)
        ensures
            r == (StepState { paused: true, step: true }),
    {
        StepState { paused: true, step: true }
    }

    /// Pause and allow exactly one more instruction.
    pub fn step(&mut self)
        ensures
            *final(self) == (StepState { paused: true, step: true }),
    {
        self.step = true;
        self.paused = true;
    }

    /// Pause when running, run when paused.
    pub fn toggle_pause(&mut self)
        ensures
            *final(self) == (StepState { paused: !old(self).paused, ..*old(self) }),
    {
        self.paused = !self.paused;
    }
}

} // verus!
