//! Keyboard input: which keys play which controller buttons, and which keys pause and
//! step the CPU. The user interface reads the keyboard and sends the buttons.

use crate::controller::Buttons;
use crate::util::bit_of;
use vstd::prelude::*;

verus! {

/// The keyboard as the user interface saw it this frame.
#[derive(Clone, Copy, Debug, PartialEq, Eq, Structural)]
pub struct Keys {
    /// `Z` is held.
    pub z: bool,
    /// `X` is held.
    pub x: bool,
    /// Space is held.
    pub space: bool,
    /// Enter is held.
    pub enter: bool,
    pub arrow_right: bool,
    pub arrow_left: bool,
    pub arrow_up: bool,
    pub arrow_down: bool,
    /// `P` was pressed.
    pub p_pressed: bool,
    /// `O` was pressed.
    pub o_pressed: bool,
}

/// The keyboard's mapping onto the controller and the debugger.
pub struct Input;

impl Input {
    pub fn new() -> (r: Input) {
        Input
    }

    /// `P` toggles the pause.
    pub fn toggle_pause(&self, keys: &Keys) -> (r: bool)
        ensures
            r == keys.p_pressed,
    {
        keys.p_pressed
    }

    /// `O` steps one instruction.
    pub fn step(&self, keys: &Keys) -> (r: bool)
        ensures
            r == keys.o_pressed,
    {
        keys.o_pressed
    }

    /// The buttons that the held keys press: `Z` is A, `X` is B, space is Select,
    /// enter is Start, and the arrows are the pad.
    pub fn update(&self, keys: &Keys) -> (r: Buttons)
        ensures
            bit_of(r.0, 0) == keys.z,
            bit_of(r.0, 1) == keys.x,
            bit_of(r.0, 2) == keys.space,
            bit_of(r.0, 3) == keys.enter,
            bit_of(r.0, 4) == keys.arrow_up,
            bit_of(r.0, 5) == keys.arrow_down,
            bit_of(r.0, 6) == keys.arrow_left,
            bit_of(r.0, 7) == keys.arrow_right,
    {
        let mut button = Buttons::default();
        let ghost v0 = button.0;
        if keys.z {
            button.set_a(true);
        }
        let ghost v1 = button.0;
        if keys.x {
            button.set_b(true);
        }
        let ghost v2 = button.0;
        if keys.space {
            button.set_select(true);
        }
        let ghost v3 = button.0;
        if keys.enter {
            button.set_start(true);
        }
        let ghost v4 = button.0;
        if keys.arrow_right {
            button.set_right(true);
        }
        let ghost v5 = button.0;
        if keys.arrow_left {
            button.set_left(true);
        }
        let ghost v6 = button.0;
        if keys.arrow_up {
            button.set_up(true);
        }
        let ghost v7 = button.0;
        if keys.arrow_down {
            button.set_down(true);
        }
        let v = button.0;
        let (a, b, sel, st, r, l, u, d) = (
            keys.z,
            keys.x,
            keys.space,
            keys.enter,
            keys.arrow_right,
            keys.arrow_left,
            keys.arrow_up,
            keys.arrow_down,
        );
        assert(bit_of(v, 0) == a && bit_of(v, 1) == b && bit_of(v, 2) == sel && bit_of(v, 3) == st
            && bit_of(v, 4) == u && bit_of(v, 5) == d && bit_of(v, 6) == l && bit_of(v, 7) == r)
            by (bit_vector)
            requires
                v0 == 0u8,
                v1 == (if a { v0 | (1u8 << 0u8) } else { v0 }),
                v2 == (if b { v1 | (1u8 << 1u8) } else { v1 }),
                v3 == (if sel { v2 | (1u8 << 2u8) } else { v2 }),
                v4 == (if st { v3 | (1u8 << 3u8) } else { v3 }),
                v5 == (if r { v4 | (1u8 << 7u8) } else { v4 }),
                v6 == (if l { v5 | (1u8 << 6u8) } else { v5 }),
                v7 == (if u { v6 | (1u8 << 4u8) } else { v6 }),
                v == (if d { v7 | (1u8 << 5u8) } else { v7 }),
        ;
        button
    }
}

} // verus!
