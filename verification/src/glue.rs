//! The emulation loop's decisions: when to reset, wait, or execute the next instruction.
//! The host performs them and reports what happened.

use vstd::prelude::*;

verus! {

/// State of execution. This is used to step per-instruction and to pause the CPU.
#[derive(Clone, Copy, Debug, PartialEq, Eq, Structural)]
pub struct StepState {
    pub paused: bool,
    pub step: bool,
}

impl StepState {
    /// Running, with one step pending.
    pub fn default() -> (r: StepState)
        ensures
            r == (StepState { paused: false, step: true }),
    {
        StepState { paused: false, step: true }
    }

    /// Pause and allow exactly one more instruction.
    pub fn step(&mut self)
        ensures
            *final(self) == (StepState { paused: true, step: true }),
    {
        self.step = true;
        self.paused = true;
    }

    /// Pause when running, run when paused.
    pub fn toggle_pause(&mut self)
        ensures
            *final(self) == (StepState { paused: !old(self).paused, ..*old(self) }),
    {
        self.paused = !self.paused;
    }
}

/// What the loop remembers between iterations.
#[derive(Clone, Copy, Debug, PartialEq, Eq, Structural)]
pub struct LoopState {
    pub step_state: StepState,
    /// The cartridge that is present has been started (the CPU was reset for it).
    pub inserted_cartridge: bool,
}

impl LoopState {
    /// The loop before its first iteration.
    pub fn new() -> (r: LoopState)
        ensures
            r == (LoopState {
                step_state: StepState { paused: false, step: true },
                inserted_cartridge: false,
            }),
    {
        LoopState { step_state: StepState::default(), inserted_cartridge: false }
    }
}

/// What the host reports at the start of an iteration, after unloading the cartridge
/// when asked and taking a new one if one was sent.
#[derive(Clone, Copy, Debug, PartialEq, Eq, Structural)]
pub struct Events {
    /// The user asked to unload the cartridge.
    pub unload_requested: bool,
    /// A cartridge is present now.
    pub cartridge_present: bool,
    /// The user asked to reboot (only an interface can).
    pub reboot_requested: bool,
    /// The interface controls stepping.
    pub step_control: bool,
    /// A new stepping state from the interface, if it sent one.
    pub new_step_state: Option<StepState>,
}

/// What the host does next.
#[derive(Clone, Copy, Debug, PartialEq, Eq, Structural)]
pub enum Action {
    /// No cartridge: wait (100 ms) and ask again.
    AwaitCartridge,
    /// Paused: wait (10 ms) and ask again.
    Paused,
    /// Execute one instruction.
    Step,
}

/// The decision of an iteration: how many times to reset the CPU first, then what to do.
#[derive(Clone, Copy, Debug, PartialEq, Eq, Structural)]
pub struct Decision {
    pub resets: u8,
    pub action: Action,
}

/// The decision for `events` in loop state `state`, and the next loop state. Unloading
/// forgets that the cartridge was started; with no cartridge the loop waits. A cartridge
/// not yet started is started by a reset, and a reboot request resets again. When the
/// interface controls stepping, its latest state is taken; while paused, a pending step
/// is consumed and executed, otherwise the loop waits.
pub open spec fn decision_of(state: LoopState, events: Events) -> (LoopState, Decision) {
    let inserted = if events.unload_requested {
        false
    } else {
        state.inserted_cartridge
    };
    if !events.cartridge_present {
        (
            LoopState { inserted_cartridge: inserted, ..state },
            Decision { resets: 0, action: Action::AwaitCartridge },
        )
    } else {
        let start_reset: u8 = if inserted {
            0
        } else {
            1
        };
        let resets: u8 = (start_reset + if events.reboot_requested {
            1u8
        } else {
            0u8
        }) as u8;
        if events.step_control {
            let s = match events.new_step_state {
                Some(n) => n,
                None => state.step_state,
            };
            if s.paused && !s.step {
                (
                    LoopState { step_state: s, inserted_cartridge: true },
                    Decision { resets, action: Action::Paused },
                )
            } else {
                (
                    LoopState {
                        step_state: if s.paused {
                            StepState { step: false, ..s }
                        } else {
                            s
                        },
                        inserted_cartridge: true,
                    },
                    Decision { resets, action: Action::Step },
                )
            }
        } else {
            (
                LoopState { step_state: state.step_state, inserted_cartridge: true },
                Decision { resets, action: Action::Step },
            )
        }
    }
}

/// Decide one iteration of the emulation loop.
pub fn decide(state: &mut LoopState, events: Events) -> (r: Decision)
    ensures
        (*final(state), r) == decision_of(*old(state), events),
{
    if events.unload_requested {
        state.inserted_cartridge = false;
    }
    if !events.cartridge_present {
        return Decision { resets: 0, action: Action::AwaitCartridge };
    }
    let mut resets: u8 = 0;
    if !state.inserted_cartridge {
        state.inserted_cartridge = true;
        resets = 1;
    }
    if events.reboot_requested {
        resets = resets + 1;
    }
    if events.step_control {
        if let Some(new_step_state) = events.new_step_state {
            state.step_state = new_step_state;
        }
        if state.step_state.paused {
            if state.step_state.step {
                state.step_state.step = false;
            } else {
                return Decision { resets, action: Action::Paused };
            }
        }
    }
    Decision { resets, action: Action::Step }
}

} // verus!
