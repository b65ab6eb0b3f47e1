//! The length counter and timer period of a pulse channel: registers `$4002` and `$4003`.
//! See https://www.nesdev.org/wiki/APU_Length_Counter

use crate::util::{word, word_from_bytes};
use vstd::prelude::*;

verus! {

/// The length loaded by each 5-bit index written to the high register.
pub open spec fn length_table(index: u8) -> u8 {
    let t: Seq<u8> = seq![
        0x0A, 0xFE, 0x14, 0x02, 0x28, 0x04, 0x50, 0x06, 0xA0, 0x08, 0x3C, 0x0A, 0x0E, 0x0C,
        0x1A, 0x0E, 0x0C, 0x10, 0x18, 0x12, 0x30, 0x14, 0x60, 0x16, 0xC0, 0x18, 0x48, 0x1A,
        0x10, 0x1C, 0x20, 0x1E,
    ];
    t[index as int]
}

fn length_lookup(index: u8) -> (r: u8)
    requires
        index < 32,
    ensures
        r == length_table(index),
{
    let table: [u8; 32] = [
        0x0A, 0xFE, 0x14, 0x02, 0x28, 0x04, 0x50, 0x06, 0xA0, 0x08, 0x3C, 0x0A, 0x0E, 0x0C,
        0x1A, 0x0E, 0x0C, 0x10, 0x18, 0x12, 0x30, 0x14, 0x60, 0x16, 0xC0, 0x18, 0x48, 0x1A,
        0x10, 0x1C, 0x20, 0x1E,
    ];
    assert(table@ =~= seq![
        0x0Au8, 0xFE, 0x14, 0x02, 0x28, 0x04, 0x50, 0x06, 0xA0, 0x08, 0x3C, 0x0A, 0x0E, 0x0C,
        0x1A, 0x0E, 0x0C, 0x10, 0x18, 0x12, 0x30, 0x14, 0x60, 0x16, 0xC0, 0x18, 0x48, 0x1A,
        0x10, 0x1C, 0x20, 0x1E,
    ]);
    table[index as usize]
}

/// Whether the length counter runs.
#[derive(Clone, Copy, Debug, PartialEq, Eq, Structural)]
pub enum State {
    Enabled,
    Disabled,
    Halted,
}

impl State {
    /// Enabled or disabled.
    pub fn from(value: bool) -> (r: State)
        ensures
            r == (if value {
                State::Enabled
            } else {
                State::Disabled
            }),
    {
        if value {
            State::Enabled
        } else {
            State::Disabled
        }
    }

    /// The state a channel starts in.
    pub fn default() -> (r: State)
        ensures
            r == State::Disabled,
    {
        State::Disabled
    }
}

/// Registers `$4002` (low byte of the timer period) and `$4003` (bits 0-2: the high bits
/// of the timer period; bits 3-7: the index of the length loaded into the counter), and
/// the length counter itself.
/// https://www.nesdev.org/wiki/APU_Pulse#Registers
#[derive(Clone, Copy, Debug, PartialEq, Eq, Structural)]
pub struct LengthCounter {
    pub low: u8,
    /// The high bits of the timer period (bits 0-2 of `$4003`).
    pub high: u8,
    /// The length counter.
    pub length: u8,
    pub state: State,
}

impl LengthCounter {
    /// The 11-bit timer period: the low register, and the three high bits above it.
    pub open spec fn timer_of(self) -> u16 {
        word(self.low, self.high & 0x07)
    }

    /// The length counter.
    pub open spec fn length_of(self) -> u8 {
        self.length
    }

    /// The counter after a half-frame clock: while enabled, the length counts down by
    /// one and stops at zero.
    pub open spec fn ticked(self) -> LengthCounter {
        if self.state == State::Enabled {
            LengthCounter {
                length: if self.length > 0 {
                    (self.length - 1) as u8
                } else {
                    0u8
                },
                ..self
            }
        } else {
            self
        }
    }

    /// The counter with a new timer period; only its low 11 bits are kept.
    pub open spec fn with_timer(self, value: u16) -> LengthCounter {
        LengthCounter {
            low: crate::util::low_byte(value),
            high: crate::util::high_byte(value) & 0x07,
            ..self
        }
    }

    /// The counter after a write of `$4003`: bits 0-2 are the high bits of the period,
    /// and bits 3-7 index the length loaded into the counter.
    pub open spec fn written_high(self, value: u8) -> LengthCounter {
        LengthCounter { high: value & 0x07, length: length_table(value >> 3u8), ..self }
    }

    /// A silent counter: registers cleared, disabled.
    pub fn default() -> (r: LengthCounter)
        ensures
            r == (LengthCounter { low: 0, high: 0, length: 0, state: State::Disabled }),
    {
        LengthCounter { low: 0, high: 0, length: 0, state: State::Disabled }
    }

    /// The timer period.
    pub fn timer(&self) -> (r: u16)
        ensures
            r == self.timer_of(),
            r < 0x800,
    {
        let h = self.high;
        let hi = h & 0x07;
        assert(h & 0x07u8 < 8) by (bit_vector);
        word_from_bytes(self.low, hi)
    }

    /// The length counter.
    pub fn length_counter(&self) -> (r: u8)
        ensures
            r == self.length_of(),
    {
        self.length
    }

    /// Set the timer period; only its low 11 bits are kept.
    pub fn set_timer(&mut self, value: u16)
        ensures
            *final(self) == old(self).with_timer(value),
    {
        let low = crate::util::low_byte_of(value);
        let high = crate::util::high_byte_of(value);
        self.low = low;
        self.high = high & 0x07;
    }

    /// The counter runs and the period is not zero.
    pub fn active(&self) -> (r: bool)
        ensures
            r == (self.state == State::Enabled && self.timer_of() > 0),
    {
        self.state == State::Enabled && self.timer() > 0
    }

    pub fn set_state(&mut self, state: State)
        ensures
            *final(self) == (LengthCounter { state, ..*old(self) }),
    {
        self.state = state;
    }

    /// Write register `$4003`: the high bits of the period, and the index of the length
    /// loaded into the counter.
    pub fn set_high(&mut self, value: u8)
        ensures
            *final(self) == old(self).written_high(value),
    {
        self.high = value & 0x07;
        assert(value >> 3u8 < 32) by (bit_vector);
        self.length = length_lookup(value >> 3);
    }

    /// Write register `$4002`: the low byte of the period.
    pub fn set_low(&mut self, value: u8)
        ensures
            *final(self) == (LengthCounter { low: value, ..*old(self) }),
    {
        self.low = value;
    }

    /// Clock the length counter on a half frame.
    pub fn tick(&mut self)
        ensures
            *final(self) == old(self).ticked(),
    {
        if self.state == State::Enabled {
            if self.length > 0 {
                self.length = self.length - 1;
            }
        }
    }
}

} // verus!
