//! The standard controller: eight buttons read one bit at a time through `$4016`.
//! See https://www.nesdev.org/wiki/Standard_controller

use crate::bus::Device;
use crate::util::{bit_of, nth_bit, set_bit, with_bit};
use vstd::prelude::*;

verus! {

/// The name of the button at report position `val`.
pub open spec fn button_name(val: u8) -> Seq<char> {
    if val == 0 {
        "A"@
    } else if val == 1 {
        "B"@
    } else if val == 2 {
        "Select"@
    } else if val == 3 {
        "Start"@
    } else if val == 4 {
        "Up"@
    } else if val == 5 {
        "Down"@
    } else if val == 6 {
        "Left"@
    } else if val == 7 {
        "Right"@
    } else {
        "Unknown"@
    }
}

/// The name of the button at report position `val`.
pub fn format_button_index(val: u8) -> (r: &'static str)
    ensures
        r@ == button_name(val),
{
    match val {
        0 => "A",
        1 => "B",
        2 => "Select",
        3 => "Start",
        4 => "Up",
        5 => "Down",
        6 => "Left",
        7 => "Right",
        _ => "Unknown",
    }
}

/// The state of the eight buttons, one bit each, in report order.
/// https://www.nesdev.org/wiki/Standard_controller#Report
#[derive(Clone, Copy, Debug, PartialEq, Eq, Structural)]
pub struct Buttons(pub u8);

impl Buttons {
    /// No button pressed.
    pub fn default() -> (r: Buttons)
        ensures
            r.0 == 0,
    {
        Buttons(0)
    }

    /// The buttons of a report byte.
    pub fn from(value: u8) -> (r: Buttons)
        ensures
            r.0 == value,
    {
        Buttons(value)
    }

    /// The report byte.
    pub fn bits(&self) -> (r: u8)
        ensures
            r == self.0,
    {
        self.0
    }

    pub fn a(&self) -> (r: bool)
        ensures
            r == bit_of(self.0, 0),
    {
        nth_bit(self.0, 0)
    }

    pub fn b(&self) -> (r: bool)
        ensures
            r == bit_of(self.0, 1),
    {
        nth_bit(self.0, 1)
    }

    pub fn select(&self) -> (r: bool)
        ensures
            r == bit_of(self.0, 2),
    {
        nth_bit(self.0, 2)
    }

    pub fn start(&self) -> (r: bool)
        ensures
            r == bit_of(self.0, 3),
    {
        nth_bit(self.0, 3)
    }

    pub fn up(&self) -> (r: bool)
        ensures
            r == bit_of(self.0, 4),
    {
        nth_bit(self.0, 4)
    }

    pub fn down(&self) -> (r: bool)
        ensures
            r == bit_of(self.0, 5),
    {
        nth_bit(self.0, 5)
    }

    pub fn left(&self) -> (r: bool)
        ensures
            r == bit_of(self.0, 6),
    {
        nth_bit(self.0, 6)
    }

    pub fn right(&self) -> (r: bool)
        ensures
            r == bit_of(self.0, 7),
    {
        nth_bit(self.0, 7)
    }

    pub fn set_a(&mut self, value: bool)
        ensures
            final(self).0 == with_bit(old(self).0, 0, value),
    {
        self.0 = set_bit(self.0, 0, value);
    }

    pub fn set_b(&mut self, value: bool)
        ensures
            final(self).0 == with_bit(old(self).0, 1, value),
    {
        self.0 = set_bit(self.0, 1, value);
    }

    pub fn set_select(&mut self, value: bool)
        ensures
            final(self).0 == with_bit(old(self).0, 2, value),
    {
        self.0 = set_bit(self.0, 2, value);
    }

    pub fn set_start(&mut self, value: bool)
        ensures
            final(self).0 == with_bit(old(self).0, 3, value),
    {
        self.0 = set_bit(self.0, 3, value);
    }

    pub fn set_up(&mut self, value: bool)
        ensures
            final(self).0 == with_bit(old(self).0, 4, value),
    {
        self.0 = set_bit(self.0, 4, value);
    }

    pub fn set_down(&mut self, value: bool)
        ensures
            final(self).0 == with_bit(old(self).0, 5, value),
    {
        self.0 = set_bit(self.0, 5, value);
    }

    pub fn set_left(&mut self, value: bool)
        ensures
            final(self).0 == with_bit(old(self).0, 6, value),
    {
        self.0 = set_bit(self.0, 6, value);
    }

    pub fn set_right(&mut self, value: bool)
        ensures
            final(self).0 == with_bit(old(self).0, 7, value),
    {
        self.0 = set_bit(self.0, 7, value);
    }
}

/// The controller port: the buttons last reported by the host, the strobe bit and
/// the position of the next button to report.
/// https://www.nesdev.org/wiki/Standard_controller
#[derive(Clone, Copy, Debug, PartialEq, Eq, Structural)]
pub struct Controller {
    pub buttons: Buttons,
    pub strobe: bool,
    pub index: u8,
}

impl Controller {
    /// No button pressed, strobe off, first button next.
    pub fn new() -> (r: Controller)
        ensures
            r == (Controller { buttons: Buttons(0), strobe: false, index: 0 }),
    {
        Controller { buttons: Buttons::default(), strobe: false, index: 0 }
    }

    /// The controller after a write of `data`: bit 0 is the strobe, which restarts the
    /// report at the first button while it is on.
    pub open spec fn written(self, data: u8) -> Controller {
        let strobe = bit_of(data, 0);
        Controller { strobe, index: if strobe { 0 } else { self.index }, ..self }
    }

    /// Write the strobe bit.
    pub fn write(&mut self, data: u8)
        ensures
            *final(self) == old(self).written(data),
    {
        self.strobe = nth_bit(data, 0);
        if self.strobe {
            self.index = 0;
        }
    }

    /// A read is defined while the report position names a button.
    pub open spec fn readable(self) -> bool {
        self.index < 8
    }

    /// The bit a read returns: the state of the button at the report position.
    pub open spec fn read_value(self) -> u8 {
        if bit_of(self.buttons.0, self.index) {
            1
        } else {
            0
        }
    }

    /// The controller after a read: without strobe, the next button comes next.
    pub open spec fn after_read(self) -> Controller {
        if self.strobe {
            self
        } else {
            Controller { index: self.index.wrapping_add(1), ..self }
        }
    }

    /// Report the button at the current position, then move on unless strobing.
    pub fn read(&mut self) -> (r: u8)
        requires
            old(self).readable(),
        ensures
            r == old(self).read_value(),
            *final(self) == old(self).after_read(),
    {
        let result: u8 = if nth_bit(self.buttons.bits(), self.index) { 1 } else { 0 };
        if !self.strobe {
            self.index = self.index.wrapping_add(1);
        }
        result
    }

    /// Take the buttons that the host last reported.
    pub fn update(&mut self, buttons: Buttons)
        ensures
            *final(self) == (Controller { buttons, ..*old(self) }),
    {
        self.buttons = buttons;
    }
}

impl Device for Controller {
    open spec fn maps(&self, address: u16) -> bool {
        address == 0x4016
    }

    /// Only the first controller port, `$4016`, is connected.
    fn contains(&self, address: u16) -> (r: bool) {
        let r = address == 0x4016;
        assert(r == self.maps(address));
        r
    }
}

/// The controller after `n` reads.
pub open spec fn after_reads(c: Controller, n: nat) -> Controller
    decreases n,
{
    if n == 0 {
        c
    } else {
        after_reads(c, (n - 1) as nat).after_read()
    }
}

/// After a strobe (writing 1, then 0), the controller reports the buttons in order: the
/// `k`-th read gives button `k` (A, B, Select, Start, Up, Down, Left, Right).
pub proof fn lemma_strobe_then_reads(c: Controller, k: nat)
    requires
        k < 8,
    ensures
        after_reads(c.written(1).written(0), k).readable(),
        after_reads(c.written(1).written(0), k).read_value() == (if bit_of(c.buttons.0, k as u8) {
            1u8
        } else {
            0u8
        }),
    decreases k,
{
    let s = c.written(1).written(0);
    assert(bit_of(1, 0)) by (bit_vector);
    assert(!bit_of(0, 0)) by (bit_vector);
    if k > 0 {
        lemma_strobe_then_reads(c, (k - 1) as nat);
    }
    lemma_reads_count(s, k);
}

/// Without strobe, `n` reads move the report position `n` buttons on.
proof fn lemma_reads_count(c: Controller, n: nat)
    requires
        !c.strobe,
        c.index as nat + n < 256,
    ensures
        after_reads(c, n) == (Controller { index: (c.index + n) as u8, ..c }),
    decreases n,
{
    if n > 0 {
        lemma_reads_count(c, (n - 1) as nat);
    }
}

} // verus!
