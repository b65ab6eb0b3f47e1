//! The processor status register.
//! See https://www.nesdev.org/wiki/Status_flags

use crate::util::{bit_of, nth_bit, set_bit, with_bit};
use vstd::prelude::*;

verus! {

/// The status flags: carry (bit 0), zero, interrupts disabled, decimal, two break bits,
/// overflow and negative (bit 7).
/// https://www.nesdev.org/wiki/Status_flags
#[derive(Clone, Copy, Debug, PartialEq, Eq, Structural)]
pub struct CpuFlags(pub u8);

/// The character for a flag: its letter when set, a dash otherwise.
pub open spec fn flag_char(flag: bool, c: char) -> char {
    if flag {
        c
    } else {
        '-'
    }
}

impl CpuFlags {
    /// Every flag clear.
    pub fn default() -> (r: CpuFlags)
        ensures
            r.0 == 0,
    {
        CpuFlags(0)
    }

    /// The flags of a status byte.
    pub fn from(value: u8) -> (r: CpuFlags)
        ensures
            r.0 == value,
    {
        CpuFlags(value)
    }

    /// The status byte.
    pub fn bits(&self) -> (r: u8)
        ensures
            r == self.0,
    {
        self.0
    }

    /// The power-on flags: interrupts disabled and both break bits set.
    pub fn new() -> (r: CpuFlags)
        ensures
            r.0 == 0b0011_0100,
    {
        let r = Self::default().with_interrupts_disabled(true).with_break_1(true).with_break_2(true);
        assert(with_bit(with_bit(with_bit(0, 2, true), 4, true), 5, true) == 0b0011_0100u8)
            by (bit_vector);
        r
    }

    /// The character for a flag: its letter when set, a dash otherwise.
    fn format(&self, flag: bool, c: char) -> (r: char)
        ensures
            r == flag_char(flag, c),
    {
        if flag {
            c
        } else {
            '-'
        }
    }

    /// The flags as eight characters, carry first: `CZIDBBON`, with a dash for each
    /// clear flag.
    pub open spec fn text(self) -> Seq<char> {
        seq![
            flag_char(bit_of(self.0, 0), 'C'),
            flag_char(bit_of(self.0, 1), 'Z'),
            flag_char(bit_of(self.0, 2), 'I'),
            flag_char(bit_of(self.0, 3), 'D'),
            flag_char(bit_of(self.0, 4), 'B'),
            flag_char(bit_of(self.0, 5), 'B'),
            flag_char(bit_of(self.0, 6), 'O'),
            flag_char(bit_of(self.0, 7), 'N'),
        ]
    }

    /// The flags as text (see `text`).
    pub fn to_string(&self) -> (r: String)
        ensures
            r@ == self.text(),
    {
        let mut chars: Vec<char> = Vec::new();
        chars.push(self.format(self.carry(), 'C'));
        chars.push(self.format(self.zero(), 'Z'));
        chars.push(self.format(self.interrupts_disabled(), 'I'));
        chars.push(self.format(self.decimal(), 'D'));
        chars.push(self.format(self.break_1(), 'B'));
        chars.push(self.format(self.break_2(), 'B'));
        chars.push(self.format(self.overflow(), 'O'));
        chars.push(self.format(self.negative(), 'N'));
        crate::util::string_of_chars(&chars)
    }

    pub fn carry(&self) -> (r: bool)
        ensures
            r == bit_of(self.0, 0),
    {
        nth_bit(self.0, 0)
    }

    pub fn set_carry(&mut self, value: bool)
        ensures
            final(self).0 == with_bit(old(self).0, 0, value),
    {
        self.0 = set_bit(self.0, 0, value);
    }

    pub fn with_carry(&self, value: bool) -> (r: CpuFlags)
        ensures
            r.0 == with_bit(self.0, 0, value),
    {
        CpuFlags(set_bit(self.0, 0, value))
    }

    pub fn zero(&self) -> (r: bool)
        ensures
            r == bit_of(self.0, 1),
    {
        nth_bit(self.0, 1)
    }

    pub fn set_zero(&mut self, value: bool)
        ensures
            final(self).0 == with_bit(old(self).0, 1, value),
    {
        self.0 = set_bit(self.0, 1, value);
    }

    pub fn with_zero(&self, value: bool) -> (r: CpuFlags)
        ensures
            r.0 == with_bit(self.0, 1, value),
    {
        CpuFlags(set_bit(self.0, 1, value))
    }

    pub fn interrupts_disabled(&self) -> (r: bool)
        ensures
            r == bit_of(self.0, 2),
    {
        nth_bit(self.0, 2)
    }

    pub fn set_interrupts_disabled(&mut self, value: bool)
        ensures
            final(self).0 == with_bit(old(self).0, 2, value),
    {
        self.0 = set_bit(self.0, 2, value);
    }

    pub fn with_interrupts_disabled(&self, value: bool) -> (r: CpuFlags)
        ensures
            r.0 == with_bit(self.0, 2, value),
    {
        CpuFlags(set_bit(self.0, 2, value))
    }

    pub fn decimal(&self) -> (r: bool)
        ensures
            r == bit_of(self.0, 3),
    {
        nth_bit(self.0, 3)
    }

    pub fn set_decimal(&mut self, value: bool)
        ensures
            final(self).0 == with_bit(old(self).0, 3, value),
    {
        self.0 = set_bit(self.0, 3, value);
    }

    pub fn with_decimal(&self, value: bool) -> (r: CpuFlags)
        ensures
            r.0 == with_bit(self.0, 3, value),
    {
        CpuFlags(set_bit(self.0, 3, value))
    }

    pub fn break_1(&self) -> (r: bool)
        ensures
            r == bit_of(self.0, 4),
    {
        nth_bit(self.0, 4)
    }

    pub fn set_break_1(&mut self, value: bool)
        ensures
            final(self).0 == with_bit(old(self).0, 4, value),
    {
        self.0 = set_bit(self.0, 4, value);
    }

    pub fn with_break_1(&self, value: bool) -> (r: CpuFlags)
        ensures
            r.0 == with_bit(self.0, 4, value),
    {
        CpuFlags(set_bit(self.0, 4, value))
    }

    pub fn break_2(&self) -> (r: bool)
        ensures
            r == bit_of(self.0, 5),
    {
        nth_bit(self.0, 5)
    }

    pub fn set_break_2(&mut self, value: bool)
        ensures
            final(self).0 == with_bit(old(self).0, 5, value),
    {
        self.0 = set_bit(self.0, 5, value);
    }

    pub fn with_break_2(&self, value: bool) -> (r: CpuFlags)
        ensures
            r.0 == with_bit(self.0, 5, value),
    {
        CpuFlags(set_bit(self.0, 5, value))
    }

    pub fn overflow(&self) -> (r: bool)
        ensures
            r == bit_of(self.0, 6),
    {
        nth_bit(self.0, 6)
    }

    pub fn set_overflow(&mut self, value: bool)
        ensures
            final(self).0 == with_bit(old(self).0, 6, value),
    {
        self.0 = set_bit(self.0, 6, value);
    }

    pub fn with_overflow(&self, value: bool) -> (r: CpuFlags)
        ensures
            r.0 == with_bit(self.0, 6, value),
    {
        CpuFlags(set_bit(self.0, 6, value))
    }

    pub fn negative(&self) -> (r: bool)
        ensures
            r == bit_of(self.0, 7),
    {
        nth_bit(self.0, 7)
    }

    pub fn set_negative(&mut self, value: bool)
        ensures
            final(self).0 == with_bit(old(self).0, 7, value),
    {
        self.0 = set_bit(self.0, 7, value);
    }

    pub fn with_negative(&self, value: bool) -> (r: CpuFlags)
        ensures
            r.0 == with_bit(self.0, 7, value),
    {
        CpuFlags(set_bit(self.0, 7, value))
    }
}

} // verus!
