//! The emulated button latch and its encoding into the `JOYP` register.

use vstd::prelude::*;

verus! {

use crate::bits::{bit_of, spec_bit_of, spec_with_bit, with_bit};

/// One bit per button, active low (0 = pressed). Buttons from bit 0:
/// A, B, Select, Start, Right, Left, Up, Down.
#[derive(Clone, Copy, Debug)]
pub struct ButtonState(pub u8);

/// The `JOYP` byte encoding a button latch under the two selection bits:
/// start from `0b1111`; if the action group is selected, keep only buttons of
/// the latch's high nibble; if the direction group is selected, keep only
/// buttons of the low nibble; an unselected group's selection bit reads as 1.
pub open spec fn spec_to_joyp(state: u8, action: bool, direction: bool) -> u8 {
    let hi = if action { 0b1111u8 & (state >> 4) } else { 0b1111u8 };
    let lo = if direction { hi & state } else { hi };
    let with_act = if !action { lo | (1u8 << 5) } else { lo };
    if !direction { with_act | (1u8 << 4) } else { with_act }
}

impl Default for ButtonState {
    /// All buttons released.
    fn default() -> (r: Self)
        ensures
            r.0 == 0xFF,
    {
        Self::new()
    }
}

impl ButtonState {
    /// All buttons released.
    pub fn new() -> (r: Self)
        ensures
            r.0 == 0xFF,
    {
        Self(0xFF)
    }

    pub fn a(self) -> (r: bool)
        ensures
            r == !spec_bit_of(self.0, 0),
    {
        !bit_of(self.0, 0)
    }

    pub fn b(self) -> (r: bool)
        ensures
            r == !spec_bit_of(self.0, 1),
    {
        !bit_of(self.0, 1)
    }

    pub fn select(self) -> (r: bool)
        ensures
            r == !spec_bit_of(self.0, 2),
    {
        !bit_of(self.0, 2)
    }

    pub fn start(self) -> (r: bool)
        ensures
            r == !spec_bit_of(self.0, 3),
    {
        !bit_of(self.0, 3)
    }

    pub fn right(self) -> (r: bool)
        ensures
            r == !spec_bit_of(self.0, 4),
    {
        !bit_of(self.0, 4)
    }

    pub fn left(self) -> (r: bool)
        ensures
            r == !spec_bit_of(self.0, 5),
    {
        !bit_of(self.0, 5)
    }

    pub fn up(self) -> (r: bool)
        ensures
            r == !spec_bit_of(self.0, 6),
    {
        !bit_of(self.0, 6)
    }

    pub fn down(self) -> (r: bool)
        ensures
            r == !spec_bit_of(self.0, 7),
    {
        !bit_of(self.0, 7)
    }

    pub fn with_a(self, pushed: bool) -> (r: Self)
        ensures
            r.0 == spec_with_bit(self.0, 0, !pushed),
    {
        Self(with_bit(self.0, 0, !pushed))
    }

    pub fn with_b(self, pushed: bool) -> (r: Self)
        ensures
            r.0 == spec_with_bit(self.0, 1, !pushed),
    {
        Self(with_bit(self.0, 1, !pushed))
    }

    pub fn with_select(self, pushed: bool) -> (r: Self)
        ensures
            r.0 == spec_with_bit(self.0, 2, !pushed),
    {
        Self(with_bit(self.0, 2, !pushed))
    }

    pub fn with_start(self, pushed: bool) -> (r: Self)
        ensures
            r.0 == spec_with_bit(self.0, 3, !pushed),
    {
        Self(with_bit(self.0, 3, !pushed))
    }

    pub fn with_right(self, pushed: bool) -> (r: Self)
        ensures
            r.0 == spec_with_bit(self.0, 4, !pushed),
    {
        Self(with_bit(self.0, 4, !pushed))
    }

    pub fn with_left(self, pushed: bool) -> (r: Self)
        ensures
            r.0 == spec_with_bit(self.0, 5, !pushed),
    {
        Self(with_bit(self.0, 5, !pushed))
    }

    pub fn with_up(self, pushed: bool) -> (r: Self)
        ensures
            r.0 == spec_with_bit(self.0, 6, !pushed),
    {
        Self(with_bit(self.0, 6, !pushed))
    }

    pub fn with_down(self, pushed: bool) -> (r: Self)
        ensures
            r.0 == spec_with_bit(self.0, 7, !pushed),
    {
        Self(with_bit(self.0, 7, !pushed))
    }

    /// Converts the emulated button state into a `JOYP` value based on the two
    /// selection bits.
    pub fn to_joyp(self, action: bool, direction: bool) -> (r: u8)
        ensures
            r == spec_to_joyp(self.0, action, direction),
    {
        let mut out: u8 = 0b1111;
        if action {
            out = out & (self.0 >> 4);
        }
        if direction {
            out = out & self.0;
        }
        if !action {
            out = out | (1u8 << 5);
        }
        if !direction {
            out = out | (1u8 << 4);
        }
        out
    }
}

} // verus!
