//! The frame counter: it clocks the envelopes (quarter frames) and the length counters
//! and sweeps (half frames).
//! See https://www.nesdev.org/wiki/APU_Frame_Counter

use crate::bus::CycleCount;
use crate::util::{bit_of, nth_bit};
use vstd::prelude::*;

verus! {

/// The kind of frame clock.
#[derive(Clone, Copy, Debug, PartialEq, Eq, Structural)]
pub enum Frame {
    Quarter,
    Half,
}

/// The four-step or five-step sequence.
#[derive(Clone, Copy, Debug, PartialEq, Eq, Structural)]
pub enum SequencerMode {
    Four,
    Five,
}

impl SequencerMode {
    /// Bit 6 of `$4017`: five steps when set.
    pub fn from(value: bool) -> (r: SequencerMode)
        ensures
            r == (if value {
                SequencerMode::Five
            } else {
                SequencerMode::Four
            }),
    {
        if value {
            SequencerMode::Five
        } else {
            SequencerMode::Four
        }
    }
}

/// The cycle at which the sequence starts over.
pub open spec fn sequence_length(flags: u8) -> int {
    if bit_of(flags, 6) {
        37_283
    } else {
        29_831
    }
}

/// https://www.nesdev.org/wiki/APU_Frame_Counter
#[derive(Clone, Copy, Debug, PartialEq, Eq, Structural)]
pub struct FrameCounter {
    pub cycle_count: CycleCount,
    /// Register `$4017`: bit 6 selects the five-step sequence, bit 7 inhibits interrupts.
    pub flags: u8,
}

impl FrameCounter {
    /// A counter at cycle 0 with every flag clear.
    pub fn default() -> (r: FrameCounter)
        ensures
            r == (FrameCounter { cycle_count: 0, flags: 0 }),
    {
        FrameCounter { cycle_count: 0, flags: 0 }
    }

    /// The sequence the flags select.
    pub fn sequencer_mode(&self) -> (r: SequencerMode)
        ensures
            r == (if bit_of(self.flags, 6) {
                SequencerMode::Five
            } else {
                SequencerMode::Four
            }),
    {
        SequencerMode::from(nth_bit(self.flags, 6))
    }

    /// Write `$4017`: take the flags and restart the sequence.
    pub fn write(&mut self, data: u8)
        ensures
            *final(self) == (FrameCounter { cycle_count: 0, flags: data }),
    {
        self.flags = data;
        self.cycle_count = 0;
    }

    /// The flags.
    pub fn read(&self) -> (r: u8)
        ensures
            r == self.flags,
    {
        self.flags
    }

    /// The frame clock due at the current cycle, if any: a half frame when the sequence
    /// starts over (and the count restarts), a quarter frame at cycles 7459 and 22373,
    /// a half frame at 14915. Then `cpu_cycles` are counted, wrapping.
    pub fn tick(&mut self, cpu_cycles: CycleCount) -> (r: Option<Frame>)
        ensures
            old(self).cycle_count >= sequence_length(old(self).flags) ==> r == Some(Frame::Half)
                && final(self).cycle_count == cpu_cycles,
            old(self).cycle_count < sequence_length(old(self).flags) ==> r == (if old(
                self,
            ).cycle_count == 7_459 || old(self).cycle_count == 22_373 {
                Some(Frame::Quarter)
            } else if old(self).cycle_count == 14_915 {
                Some(Frame::Half)
            } else {
                None
            }) && final(self).cycle_count == old(self).cycle_count.wrapping_add(cpu_cycles),
            final(self).flags == old(self).flags,
    {
        let max: usize = match self.sequencer_mode() {
            SequencerMode::Four => 29_831,
            SequencerMode::Five => 37_283,
        };
        let result = if self.cycle_count >= max {
            // Rollover
            self.cycle_count = 0;
            Some(Frame::Half)
        } else {
            match self.cycle_count {
                7_459 | 22_373 => Some(Frame::Quarter),
                14_915 => Some(Frame::Half),
                _ => None,
            }
        };
        self.cycle_count = self.cycle_count.wrapping_add(cpu_cycles);
        result
    }
}

/// Bit 6 of `$4017` selects the five-step sequence, 37283 cycles long; clear, the
/// four-step sequence runs 29831 cycles.
pub proof fn lemma_sequence_length(flags: u8)
    ensures
        sequence_length(flags) == (if flags & 0x40 != 0 {
            37_283int
        } else {
            29_831int
        }),
{
    crate::util::lemma_bit_masks(flags);
}

} // verus!
