//! The sweep unit of a pulse channel: register `$4001`.
//! See https://www.nesdev.org/wiki/APU_Sweep

use crate::util::{bit_of, nth_bit};
use vstd::prelude::*;

verus! {

/// Register `$4001` and the divider of the sweep unit.
#[derive(Clone, Copy, Debug, PartialEq, Eq, Structural)]
pub struct Sweep {
    /// Bits 0-2: shift count; bit 3: negate; bits 4-6: divider period; bit 7: enabled.
    pub flags: u8,
    pub timer: u16,
}

/// Periods at or above this silence the channel.
pub const PERIOD_MAX: i16 = 0x800;

impl Sweep {
    pub open spec fn shift_of(self) -> u8 {
        self.flags & 7
    }

    pub open spec fn divider_of(self) -> u8 {
        (self.flags >> 4u8) & 7
    }

    /// The sweep target for `timer`: the period plus or minus itself shifted right; the
    /// first pulse channel subtracts one more when negating.
    pub open spec fn target_of(self, timer: int) -> int {
        let change = timer / pow2(self.shift_of());
        if bit_of(self.flags, 3) {
            timer - change - 1
        } else {
            timer + change
        }
    }

    /// The sweep unit after a half-frame clock with the current period, and the new
    /// period if it is due: the divider has run out, the period is at least 8, the unit
    /// is enabled with a nonzero shift, and the target stays below the maximum. The
    /// divider then counts down, or reloads when it ran out.
    pub open spec fn ticked(self, period: int) -> (Sweep, Option<i16>) {
        let result = if self.timer == 0 && period >= 8 && bit_of(self.flags, 7) && self.shift_of() > 0
            && self.target_of(period) < PERIOD_MAX {
            Some(self.target_of(period) as i16)
        } else {
            None
        };
        let timer = if self.timer > 0 {
            (self.timer - 1) as u16
        } else {
            self.divider_of() as u16
        };
        (Sweep { timer, ..self }, result)
    }

    /// A sweep unit with every flag clear.
    pub fn default() -> (r: Sweep)
        ensures
            r == (Sweep { flags: 0, timer: 0 }),
    {
        Sweep { flags: 0, timer: 0 }
    }

    /// Write register `$4001`.
    pub fn write(&mut self, data: u8)
        ensures
            *final(self) == (Sweep { flags: data, ..*old(self) }),
    {
        self.flags = data;
    }

    /// https://www.nesdev.org/wiki/APU_Sweep#Calculating_the_target_period
    pub fn target_period(&self, timer: i16) -> (r: i16)
        requires
            -0x8000 <= self.target_of(timer as int) <= 0x7FFF,
        ensures
            r == self.target_of(timer as int),
    {
        let f = self.flags;
        let shift = f & 7;
        assert(shift < 8) by (bit_vector)
            requires
                shift == f & 7,
        ;
        let change = timer >> shift;
        assert(change == timer as int / pow2(shift)) by {
            lemma_shift_is_floor_division(timer, shift);
        }
        if nth_bit(self.flags, 3) {
            // Substract one for ones compliment, since this is channel one
            timer - change - 1
        } else {
            timer + change
        }
    }

    /// Clock the sweep divider. When it is due, the period is at least 8, the unit is
    /// enabled with a nonzero shift, and the target stays below the maximum, the target
    /// is the new period.
    pub fn tick(&mut self, period: i16) -> (r: Option<i16>)
        requires
            -0x8000 <= old(self).target_of(period as int) <= 0x7FFF,
        ensures
            (*final(self), r) == old(self).ticked(period as int),
    {
        let mut result = None;
        if self.timer == 0 && period >= 8 && nth_bit(self.flags, 7) && (self.flags & 7) > 0 {
            let target_period = self.target_period(period);
            if target_period < PERIOD_MAX {
                result = Some(target_period);
            }
        }
        if self.timer > 0 {
            self.timer -= 1;
        } else {
            self.timer = ((self.flags >> 4) & 7) as u16;
        }
        result
    }
}

/// Two to the power `n`, for `n` below 8.
pub open spec fn pow2(n: u8) -> int {
    if n == 0 {
        1
    } else if n == 1 {
        2
    } else if n == 2 {
        4
    } else if n == 3 {
        8
    } else if n == 4 {
        16
    } else if n == 5 {
        32
    } else if n == 6 {
        64
    } else {
        128
    }
}

/// An arithmetic shift right divides by a power of two, rounding down.
proof fn lemma_shift_is_floor_division(timer: i16, shift: u8)
    requires
        shift < 8,
    ensures
        (timer >> shift) as int == timer as int / pow2(shift),
{
    assert(shift < 8 ==> (timer >> shift) as int == timer as int / (if shift == 0 {
        1int
    } else if shift == 1 {
        2int
    } else if shift == 2 {
        4int
    } else if shift == 3 {
        8int
    } else if shift == 4 {
        16int
    } else if shift == 5 {
        32int
    } else if shift == 6 {
        64int
    } else {
        128int
    })) by (bit_vector);
}

fn pow2_exec(n: u8) -> (r: i16)
    requires
        n < 8,
    ensures
        r == pow2(n),
{
    match n {
        0 => 1,
        1 => 2,
        2 => 4,
        3 => 8,
        4 => 16,
        5 => 32,
        6 => 64,
        _ => 128,
    }
}

/// The sweep target: the period plus itself shifted right by the shift count (bits 0-2);
/// with the negate bit (bit 3) set, the period minus that change and minus one more (the
/// ones' complement of the first pulse channel).
pub proof fn lemma_sweep_target(s: Sweep, timer: int)
    ensures
        ({
            let k = s.flags & 7;
            let change = timer / (if k == 0 {
                1int
            } else if k == 1 {
                2
            } else if k == 2 {
                4
            } else if k == 3 {
                8
            } else if k == 4 {
                16
            } else if k == 5 {
                32
            } else if k == 6 {
                64
            } else {
                128
            });
            s.target_of(timer) == if s.flags & 0x08 != 0 {
                timer - change - 1
            } else {
                timer + change
            }
        }),
{
    crate::util::lemma_bit_masks(s.flags);
}

} // verus!
