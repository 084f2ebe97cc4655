//! The controller port: a latch and an eight-bit shift register.
use crate::bits::{bit8, set_bit8};
use crate::types::Byte;
use vstd::prelude::*;

verus! {

/// Button state, one bit each: right, left, down, up, start, select, B, A
/// from bit 0 to bit 7.
#[derive(Clone, Copy, Debug, PartialEq, Eq, Structural)]
pub struct JoypadState(pub u8);

impl JoypadState {
    pub fn right(&self) -> (r: bool)
        ensures
            r == bit8(self.0, 0),
    {
        (self.0 >> 0u8) & 1 == 1
    }

    pub fn set_right(&mut self, v: bool)
        ensures
            bit8(final(self).0, 0) == v,
            forall|m: u8| #![auto] m < 8 && m != 0 ==> bit8(final(self).0, m) == bit8(old(self).0, m),
    {
        self.0 = set_bit8(self.0, 0, v);
    }

    pub fn left(&self) -> (r: bool)
        ensures
            r == bit8(self.0, 1),
    {
        (self.0 >> 1u8) & 1 == 1
    }

    pub fn set_left(&mut self, v: bool)
        ensures
            bit8(final(self).0, 1) == v,
            forall|m: u8| #![auto] m < 8 && m != 1 ==> bit8(final(self).0, m) == bit8(old(self).0, m),
    {
        self.0 = set_bit8(self.0, 1, v);
    }

    pub fn down(&self) -> (r: bool)
        ensures
            r == bit8(self.0, 2),
    {
        (self.0 >> 2u8) & 1 == 1
    }

    pub fn set_down(&mut self, v: bool)
        ensures
            bit8(final(self).0, 2) == v,
            forall|m: u8| #![auto] m < 8 && m != 2 ==> bit8(final(self).0, m) == bit8(old(self).0, m),
    {
        self.0 = set_bit8(self.0, 2, v);
    }

    pub fn up(&self) -> (r: bool)
        ensures
            r == bit8(self.0, 3),
    {
        (self.0 >> 3u8) & 1 == 1
    }

    pub fn set_up(&mut self, v: bool)
        ensures
            bit8(final(self).0, 3) == v,
            forall|m: u8| #![auto] m < 8 && m != 3 ==> bit8(final(self).0, m) == bit8(old(self).0, m),
    {
        self.0 = set_bit8(self.0, 3, v);
    }

    pub fn start(&self) -> (r: bool)
        ensures
            r == bit8(self.0, 4),
    {
        (self.0 >> 4u8) & 1 == 1
    }

    pub fn set_start(&mut self, v: bool)
        ensures
            bit8(final(self).0, 4) == v,
            forall|m: u8| #![auto] m < 8 && m != 4 ==> bit8(final(self).0, m) == bit8(old(self).0, m),
    {
        self.0 = set_bit8(self.0, 4, v);
    }

    pub fn select(&self) -> (r: bool)
        ensures
            r == bit8(self.0, 5),
    {
        (self.0 >> 5u8) & 1 == 1
    }

    pub fn set_select(&mut self, v: bool)
        ensures
            bit8(final(self).0, 5) == v,
            forall|m: u8| #![auto] m < 8 && m != 5 ==> bit8(final(self).0, m) == bit8(old(self).0, m),
    {
        self.0 = set_bit8(self.0, 5, v);
    }

    pub fn b(&self) -> (r: bool)
        ensures
            r == bit8(self.0, 6),
    {
        (self.0 >> 6u8) & 1 == 1
    }

    pub fn set_b(&mut self, v: bool)
        ensures
            bit8(final(self).0, 6) == v,
            forall|m: u8| #![auto] m < 8 && m != 6 ==> bit8(final(self).0, m) == bit8(old(self).0, m),
    {
        self.0 = set_bit8(self.0, 6, v);
    }

    pub fn a(&self) -> (r: bool)
        ensures
            r == bit8(self.0, 7),
    {
        (self.0 >> 7u8) & 1 == 1
    }

    pub fn set_a(&mut self, v: bool)
        ensures
            bit8(final(self).0, 7) == v,
            forall|m: u8| #![auto] m < 8 && m != 7 ==> bit8(final(self).0, m) == bit8(old(self).0, m),
    {
        self.0 = set_bit8(self.0, 7, v);
    }

    /// Takes the top bit out (A first, Right last) and shifts the rest up.
    pub fn get_and_shift(&mut self) -> (r: Byte)
        ensures
            r.0 == old(self).0 / 128,
            final(self).0 == (old(self).0 % 128) * 2,
    {
        let int_res = self.0 / 128;
        self.0 = (self.0 % 128) * 2;
        Byte(int_res)
    }
}

pub struct Joypad {
    pub state: JoypadState,
    pub reg: JoypadState,
}

impl Joypad {
    pub fn new() -> (r: Joypad)
        ensures
            r.state.0 == 0,
            r.reg.0 == 0,
    {
        Joypad { state: JoypadState(0), reg: JoypadState(0) }
    }

    /// The host reports the buttons held now.
    pub fn update(&mut self, state: JoypadState)
        ensures
            final(self).state == state,
            final(self).reg == old(self).reg,
    {
        self.state = state;
    }

    /// Each read returns the next latched button in bit 0: A, B, Select,
    /// Start, Up, Down, Left, Right.
    pub fn read(&mut self) -> (r: Byte)
        ensures
            r.0 == old(self).reg.0 / 128,
            final(self).reg.0 == (old(self).reg.0 % 128) * 2,
            final(self).state == old(self).state,
    {
        self.reg.get_and_shift()
    }

    /// A write with bit 0 set latches the current buttons.
    pub fn write(&mut self, v: Byte)
        ensures
            final(self).state == old(self).state,
            v.0 % 2 == 1 ==> final(self).reg == old(self).state,
            v.0 % 2 == 0 ==> final(self).reg == old(self).reg,
    {
        if v.0 % 2 == 1 {
            self.reg = self.state;
        }
    }
}

} // verus!
