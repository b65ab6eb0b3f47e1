//! The CPU debugger panel's decisions: which recorded CPU state it shows and
//! highlights, and what its controls send to the emulation loop. Drawing the panel
//! and the channels stay with the user interface, which calls these.

use crate::cpu::CpuState;
use crate::glue::StepState;
use crate::util::{slots_after_pushes, CircularBuffer};
use vstd::prelude::*;

verus! {

/// How many CPU states the debugger keeps.
pub const CPU_STATES: usize = 500;

/// The debugger's state: the last CPU states it received, the one the user selected,
/// and the pause and step state it last sent.
pub struct CpuDebugger {
    pub cpu_states: CircularBuffer<CpuState, CPU_STATES>,
    pub selected_cpu_state_index: Option<usize>,
    pub step_state: StepState,
    pub jump_to_bottom_clicked: bool,
}

impl CpuDebugger {
    /// The buffer is well formed and a selection names one of its slots.
    pub open spec fn wf(&self) -> bool {
        &&& self.cpu_states.wf()
        &&& self.selected_cpu_state_index matches Some(i) ==> i < CPU_STATES
    }

    /// No state recorded, nothing selected, running.
    pub fn new() -> (r: CpuDebugger)
        ensures
            r.wf(),
            r.cpu_states.cursor() == 0,
            forall|i: int| 0 <= i < CPU_STATES ==> r.cpu_states.slots()[i] == None::<CpuState>,
            r.selected_cpu_state_index == None::<usize>,
            r.step_state == (StepState { paused: false, step: true }),
            !r.jump_to_bottom_clicked,
    {
        CpuDebugger {
            cpu_states: CircularBuffer::new(),
            selected_cpu_state_index: None,
            step_state: StepState::default(),
            jump_to_bottom_clicked: false,
        }
    }

    /// Forget every recorded state and the selection.
    pub fn clear_states(&mut self)
        ensures
            final(self).wf(),
            final(self).cpu_states.cursor() == 0,
            forall|i: int|
                0 <= i < CPU_STATES ==> final(self).cpu_states.slots()[i] == None::<CpuState>,
            final(self).selected_cpu_state_index == None::<usize>,
            final(self).step_state == old(self).step_state,
            final(self).jump_to_bottom_clicked == old(self).jump_to_bottom_clicked,
    {
        self.cpu_states = CircularBuffer::new();
        self.selected_cpu_state_index = None;
    }

    /// Pause the CPU; returns the step state to send.
    pub fn pause(&mut self) -> (sent: StepState)
        ensures
            final(self).step_state == (StepState { paused: true, ..old(self).step_state }),
            sent == final(self).step_state,
            final(self).cpu_states == old(self).cpu_states,
            final(self).selected_cpu_state_index == old(self).selected_cpu_state_index,
            final(self).jump_to_bottom_clicked == old(self).jump_to_bottom_clicked,
    {
        self.step_state.paused = true;
        self.step_state
    }

    /// Let the CPU run; returns the step state to send.
    pub fn unpause(&mut self) -> (sent: StepState)
        ensures
            final(self).step_state == (StepState { paused: false, ..old(self).step_state }),
            sent == final(self).step_state,
            final(self).cpu_states == old(self).cpu_states,
            final(self).selected_cpu_state_index == old(self).selected_cpu_state_index,
            final(self).jump_to_bottom_clicked == old(self).jump_to_bottom_clicked,
    {
        self.step_state.paused = false;
        self.step_state
    }

    /// Pause when running, run when paused; returns the step state to send.
    pub fn toggle_pause(&mut self) -> (sent: StepState)
        ensures
            final(self).step_state == (StepState {
                paused: !old(self).step_state.paused,
                ..old(self).step_state
            }),
            sent == final(self).step_state,
            final(self).cpu_states == old(self).cpu_states,
            final(self).selected_cpu_state_index == old(self).selected_cpu_state_index,
            final(self).jump_to_bottom_clicked == old(self).jump_to_bottom_clicked,
    {
        self.step_state.paused = !self.step_state.paused;
        self.step_state
    }

    /// Pause and allow one instruction; returns the step state to send.
    pub fn step(&mut self) -> (sent: StepState)
        ensures
            final(self).step_state == (StepState { paused: true, step: true }),
            sent == final(self).step_state,
            final(self).cpu_states == old(self).cpu_states,
            final(self).selected_cpu_state_index == old(self).selected_cpu_state_index,
            final(self).jump_to_bottom_clicked == old(self).jump_to_bottom_clicked,
    {
        self.step_state.paused = true;
        self.step_state.step = true;
        self.step_state
    }

    /// The state to show: the one in the selected slot, or else the last one received.
    pub fn selected_or_last_cpu_state(&self) -> (r: Option<&CpuState>)
        requires
            self.wf(),
        ensures
            r == (match self.selected_cpu_state_index {
                Some(i) => match self.cpu_states.slots()[i as int] {
                    Some(s) => Some(&s),
                    None => None,
                },
                None => match self.cpu_states.slots()[(self.cpu_states.cursor() + CPU_STATES - 1)
                    % (CPU_STATES as int)] {
                    Some(s) => Some(&s),
                    None => None,
                },
            }),
    {
        if let Some(index) = self.selected_cpu_state_index {
            match self.cpu_states.index(index) {
                Some(s) => Some(s),
                None => None,
            }
        } else {
            self.cpu_states.last()
        }
    }

    /// Record the states received since the last frame, oldest first; each
    /// overwrites the oldest recorded one once the buffer is full.
    pub fn update_buffer(&mut self, received: Vec<CpuState>)
        requires
            old(self).wf(),
        ensures
            final(self).wf(),
            final(self).cpu_states.slots() == slots_after_pushes(
                old(self).cpu_states.slots(),
                old(self).cpu_states.cursor(),
                CPU_STATES as int,
                received@,
            ),
            final(self).cpu_states.cursor() == (old(self).cpu_states.cursor() + received@.len())
                % (CPU_STATES as int),
            final(self).selected_cpu_state_index == old(self).selected_cpu_state_index,
            final(self).step_state == old(self).step_state,
            final(self).jump_to_bottom_clicked == old(self).jump_to_bottom_clicked,
    {
        proof {
            self.cpu_states.lemma_cursor_in_bounds();
            vstd::arithmetic::div_mod::lemma_small_mod(
                self.cpu_states.cursor() as nat,
                CPU_STATES as nat,
            );
        }
        let ghost slots0 = self.cpu_states.slots();
        let ghost cursor0 = self.cpu_states.cursor();
        let ghost items = received@;
        let mut received = received;
        let mut i: usize = 0;
        let n = received.len();
        while i < n
            invariant
                n == items.len(),
                i <= n,
                received@ == items.subrange(i as int, n as int),
                self.wf(),
                0 <= cursor0 < CPU_STATES,
                self.cpu_states.slots() == slots_after_pushes(
                    slots0,
                    cursor0,
                    CPU_STATES as int,
                    items.take(i as int),
                ),
                self.cpu_states.cursor() == (cursor0 + i) % (CPU_STATES as int),
                self.selected_cpu_state_index == old(self).selected_cpu_state_index,
                self.step_state == old(self).step_state,
                self.jump_to_bottom_clicked == old(self).jump_to_bottom_clicked,
            decreases n - i,
        {
            let state = received.remove(0);
            assert(state == items[i as int]);
            self.cpu_states.push(state);
            proof {
                assert(items.take(i + 1).drop_last() =~= items.take(i as int));
                vstd::arithmetic::div_mod::lemma_add_mod_noop(cursor0 + i, 1, CPU_STATES as int);
                vstd::arithmetic::div_mod::lemma_small_mod(1, CPU_STATES as nat);
            }
            i += 1;
            assert(received@ =~= items.subrange(i as int, n as int));
        }
        assert(items.take(n as int) =~= items);
    }

    /// The instruction list's "jump to bottom" button: when clicked, drop the
    /// selection and scroll to the latest state.
    pub fn jump_to_bottom(&mut self, clicked: bool)
        ensures
            final(self).jump_to_bottom_clicked == clicked,
            final(self).selected_cpu_state_index == (if clicked {
                None
            } else {
                old(self).selected_cpu_state_index
            }),
            final(self).cpu_states == old(self).cpu_states,
            final(self).step_state == old(self).step_state,
    {
        if clicked {
            self.jump_to_bottom_clicked = true;
            self.selected_cpu_state_index = None;
        } else {
            self.jump_to_bottom_clicked = false;
        }
    }

    /// The instruction list's "step" button: drop the selection, pause and allow one
    /// instruction; returns the step state to send.
    pub fn step_clicked(&mut self) -> (sent: StepState)
        ensures
            final(self).selected_cpu_state_index == None::<usize>,
            final(self).step_state == (StepState { paused: true, step: true }),
            sent == final(self).step_state,
            final(self).cpu_states == old(self).cpu_states,
            final(self).jump_to_bottom_clicked == old(self).jump_to_bottom_clicked,
    {
        self.selected_cpu_state_index = None;
        self.step_state.step();
        self.step_state
    }

    /// The instruction list's "toggle" button: drop the selection and toggle the
    /// pause; returns the step state to send.
    pub fn toggle_clicked(&mut self) -> (sent: StepState)
        ensures
            final(self).selected_cpu_state_index == None::<usize>,
            final(self).step_state == (StepState {
                paused: !old(self).step_state.paused,
                ..old(self).step_state
            }),
            sent == final(self).step_state,
            final(self).cpu_states == old(self).cpu_states,
            final(self).jump_to_bottom_clicked == old(self).jump_to_bottom_clicked,
    {
        self.selected_cpu_state_index = None;
        self.step_state.toggle_pause();
        self.step_state
    }

    /// A row of the instruction list was clicked: select it.
    pub fn select(&mut self, index: usize)
        requires
            old(self).wf(),
            index < CPU_STATES,
        ensures
            final(self).wf(),
            final(self).selected_cpu_state_index == Some(index),
            final(self).cpu_states == old(self).cpu_states,
            final(self).step_state == old(self).step_state,
            final(self).jump_to_bottom_clicked == old(self).jump_to_bottom_clicked,
    {
        self.selected_cpu_state_index = Some(index);
    }

    /// Row `index` of the instruction list is highlighted: it is selected, or nothing
    /// is and it is the last row.
    pub fn is_highlighted(&self, index: usize) -> (r: bool)
        ensures
            r == (self.selected_cpu_state_index == Some(index) || (
            self.selected_cpu_state_index is None && index == CPU_STATES - 1)),
    {
        match self.selected_cpu_state_index {
            Some(selected) => selected == index,
            None => index == CPU_STATES - 1,
        }
    }
}

} // verus!
