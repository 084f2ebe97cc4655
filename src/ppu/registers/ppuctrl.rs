//! PPUCTRL (0x2000, write-only): nametable select, increment, pattern tables, sprite size, NMI enable.
use crate::bits::{bit8, set_bit8};
use crate::types::Byte;
use vstd::prelude::*;

verus! {

#[derive(Clone, Copy, Debug, PartialEq, Eq, Structural)]
pub struct PpuCtrl(pub u8);

impl PpuCtrl {
    pub fn new() -> (r: PpuCtrl)
        ensures
            r.0 == 0,
    {
        PpuCtrl(0)
    }

    pub fn from_byte(v: Byte) -> (r: PpuCtrl)
        ensures
            r.0 == v.0,
    {
        PpuCtrl(v.0)
    }

    pub fn to_byte(&self) -> (r: Byte)
        ensures
            r.0 == self.0,
    {
        Byte(self.0)
    }

    fn set_flag(&mut self, n: u8, v: bool)
        requires
            n < 8,
        ensures
            bit8(final(self).0, n) == v,
            forall|m: u8| #![auto] m < 8 && m != n ==> bit8(final(self).0, m) == bit8(old(self).0, m),
    {
        self.0 = set_bit8(self.0, n, v);
    }

    pub fn nametable_x(&self) -> (r: bool)
        ensures
            r == bit8(self.0, 0),
    {
        (self.0 >> 0u8) & 1 == 1
    }

    pub fn set_nametable_x(&mut self, v: bool)
        ensures
            bit8(final(self).0, 0) == v,
            forall|m: u8| #![auto] m < 8 && m != 0 ==> bit8(final(self).0, m) == bit8(old(self).0, m),
    {
        self.set_flag(0, v);
    }

    pub fn nametable_y(&self) -> (r: bool)
        ensures
            r == bit8(self.0, 1),
    {
        (self.0 >> 1u8) & 1 == 1
    }

    pub fn set_nametable_y(&mut self, v: bool)
        ensures
            bit8(final(self).0, 1) == v,
            forall|m: u8| #![auto] m < 8 && m != 1 ==> bit8(final(self).0, m) == bit8(old(self).0, m),
    {
        self.set_flag(1, v);
    }

    pub fn increment_mode(&self) -> (r: bool)
        ensures
            r == bit8(self.0, 2),
    {
        (self.0 >> 2u8) & 1 == 1
    }

    pub fn set_increment_mode(&mut self, v: bool)
        ensures
            bit8(final(self).0, 2) == v,
            forall|m: u8| #![auto] m < 8 && m != 2 ==> bit8(final(self).0, m) == bit8(old(self).0, m),
    {
        self.set_flag(2, v);
    }

    pub fn pattern_sprite(&self) -> (r: bool)
        ensures
            r == bit8(self.0, 3),
    {
        (self.0 >> 3u8) & 1 == 1
    }

    pub fn set_pattern_sprite(&mut self, v: bool)
        ensures
            bit8(final(self).0, 3) == v,
            forall|m: u8| #![auto] m < 8 && m != 3 ==> bit8(final(self).0, m) == bit8(old(self).0, m),
    {
        self.set_flag(3, v);
    }

    pub fn pattern_background(&self) -> (r: bool)
        ensures
            r == bit8(self.0, 4),
    {
        (self.0 >> 4u8) & 1 == 1
    }

    pub fn set_pattern_background(&mut self, v: bool)
        ensures
            bit8(final(self).0, 4) == v,
            forall|m: u8| #![auto] m < 8 && m != 4 ==> bit8(final(self).0, m) == bit8(old(self).0, m),
    {
        self.set_flag(4, v);
    }

    pub fn sprite_size(&self) -> (r: bool)
        ensures
            r == bit8(self.0, 5),
    {
        (self.0 >> 5u8) & 1 == 1
    }

    pub fn set_sprite_size(&mut self, v: bool)
        ensures
            bit8(final(self).0, 5) == v,
            forall|m: u8| #![auto] m < 8 && m != 5 ==> bit8(final(self).0, m) == bit8(old(self).0, m),
    {
        self.set_flag(5, v);
    }

    pub fn slave_mode(&self) -> (r: bool)
        ensures
            r == bit8(self.0, 6),
    {
        (self.0 >> 6u8) & 1 == 1
    }

    pub fn set_slave_mode(&mut self, v: bool)
        ensures
            bit8(final(self).0, 6) == v,
            forall|m: u8| #![auto] m < 8 && m != 6 ==> bit8(final(self).0, m) == bit8(old(self).0, m),
    {
        self.set_flag(6, v);
    }

    pub fn enable_nmi(&self) -> (r: bool)
        ensures
            r == bit8(self.0, 7),
    {
        (self.0 >> 7u8) & 1 == 1
    }

    pub fn set_enable_nmi(&mut self, v: bool)
        ensures
            bit8(final(self).0, 7) == v,
            forall|m: u8| #![auto] m < 8 && m != 7 ==> bit8(final(self).0, m) == bit8(old(self).0, m),
    {
        self.set_flag(7, v);
    }

    pub fn enable_nametable_x(&mut self)
        ensures
            bit8(final(self).0, 0),
            forall|m: u8| #![auto] m < 8 && m != 0 ==> bit8(final(self).0, m) == bit8(old(self).0, m),
    {
        self.set_flag(0, true);
    }

    pub fn enable_nametable_y(&mut self)
        ensures
            bit8(final(self).0, 1),
            forall|m: u8| #![auto] m < 8 && m != 1 ==> bit8(final(self).0, m) == bit8(old(self).0, m),
    {
        self.set_flag(1, true);
    }

    pub fn enable_increment_mode(&mut self)
        ensures
            bit8(final(self).0, 2),
            forall|m: u8| #![auto] m < 8 && m != 2 ==> bit8(final(self).0, m) == bit8(old(self).0, m),
    {
        self.set_flag(2, true);
    }

    pub fn enable_pattern_sprite(&mut self)
        ensures
            bit8(final(self).0, 3),
            forall|m: u8| #![auto] m < 8 && m != 3 ==> bit8(final(self).0, m) == bit8(old(self).0, m),
    {
        self.set_flag(3, true);
    }

    pub fn enable_pattern_background(&mut self)
        ensures
            bit8(final(self).0, 4),
            forall|m: u8| #![auto] m < 8 && m != 4 ==> bit8(final(self).0, m) == bit8(old(self).0, m),
    {
        self.set_flag(4, true);
    }

    pub fn enable_sprite_size(&mut self)
        ensures
            bit8(final(self).0, 5),
            forall|m: u8| #![auto] m < 8 && m != 5 ==> bit8(final(self).0, m) == bit8(old(self).0, m),
    {
        self.set_flag(5, true);
    }

    pub fn enable_slave_mode(&mut self)
        ensures
            bit8(final(self).0, 6),
            forall|m: u8| #![auto] m < 8 && m != 6 ==> bit8(final(self).0, m) == bit8(old(self).0, m),
    {
        self.set_flag(6, true);
    }

    pub fn enable_enable_nmi(&mut self)
        ensures
            bit8(final(self).0, 7),
            forall|m: u8| #![auto] m < 8 && m != 7 ==> bit8(final(self).0, m) == bit8(old(self).0, m),
    {
        self.set_flag(7, true);
    }

    pub fn disable_nametable_x(&mut self)
        ensures
            !bit8(final(self).0, 0),
            forall|m: u8| #![auto] m < 8 && m != 0 ==> bit8(final(self).0, m) == bit8(old(self).0, m),
    {
        self.set_flag(0, false);
    }

    pub fn disable_nametable_y(&mut self)
        ensures
            !bit8(final(self).0, 1),
            forall|m: u8| #![auto] m < 8 && m != 1 ==> bit8(final(self).0, m) == bit8(old(self).0, m),
    {
        self.set_flag(1, false);
    }

    pub fn disable_increment_mode(&mut self)
        ensures
            !bit8(final(self).0, 2),
            forall|m: u8| #![auto] m < 8 && m != 2 ==> bit8(final(self).0, m) == bit8(old(self).0, m),
    {
        self.set_flag(2, false);
    }

    pub fn disable_pattern_sprite(&mut self)
        ensures
            !bit8(final(self).0, 3),
            forall|m: u8| #![auto] m < 8 && m != 3 ==> bit8(final(self).0, m) == bit8(old(self).0, m),
    {
        self.set_flag(3, false);
    }

    pub fn disable_pattern_background(&mut self)
        ensures
            !bit8(final(self).0, 4),
            forall|m: u8| #![auto] m < 8 && m != 4 ==> bit8(final(self).0, m) == bit8(old(self).0, m),
    {
        self.set_flag(4, false);
    }

    pub fn disable_sprite_size(&mut self)
        ensures
            !bit8(final(self).0, 5),
            forall|m: u8| #![auto] m < 8 && m != 5 ==> bit8(final(self).0, m) == bit8(old(self).0, m),
    {
        self.set_flag(5, false);
    }

    pub fn disable_slave_mode(&mut self)
        ensures
            !bit8(final(self).0, 6),
            forall|m: u8| #![auto] m < 8 && m != 6 ==> bit8(final(self).0, m) == bit8(old(self).0, m),
    {
        self.set_flag(6, false);
    }

    pub fn disable_enable_nmi(&mut self)
        ensures
            !bit8(final(self).0, 7),
            forall|m: u8| #![auto] m < 8 && m != 7 ==> bit8(final(self).0, m) == bit8(old(self).0, m),
    {
        self.set_flag(7, false);
    }
}

} // verus!
