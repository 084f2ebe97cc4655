//! PPUSTATUS (0x2002, read-only): sprite overflow, sprite-zero hit, vertical blank.
use crate::bits::{bit8, set_bit8};
use crate::types::Byte;
use vstd::prelude::*;

verus! {

#[derive(Clone, Copy, Debug, PartialEq, Eq, Structural)]
pub struct PpuStatus(pub u8);

impl PpuStatus {
    pub fn new() -> (r: PpuStatus)
        ensures
            r.0 == 0,
    {
        PpuStatus(0)
    }

    pub fn from_byte(v: Byte) -> (r: PpuStatus)
        ensures
            r.0 == v.0,
    {
        PpuStatus(v.0)
    }

    pub fn to_byte(&self) -> (r: Byte)
        ensures
            r.0 == self.0,
    {
        Byte(self.0)
    }

    fn set_flag(&mut self, n: u8, v: bool)
        requires
            n < 8,
        ensures
            bit8(final(self).0, n) == v,
            forall|m: u8| #![auto] m < 8 && m != n ==> bit8(final(self).0, m) == bit8(old(self).0, m),
    {
        self.0 = set_bit8(self.0, n, v);
    }

    pub fn vertical_blank(&self) -> (r: bool)
        ensures
            r == bit8(self.0, 7),
    {
        (self.0 >> 7u8) & 1 == 1
    }

    pub fn set_vertical_blank(&mut self, v: bool)
        ensures
            bit8(final(self).0, 7) == v,
            forall|m: u8| #![auto] m < 8 && m != 7 ==> bit8(final(self).0, m) == bit8(old(self).0, m),
    {
        self.set_flag(7, v);
    }

    pub fn sprite_zero_hit(&self) -> (r: bool)
        ensures
            r == bit8(self.0, 6),
    {
        (self.0 >> 6u8) & 1 == 1
    }

    pub fn set_sprite_zero_hit(&mut self, v: bool)
        ensures
            bit8(final(self).0, 6) == v,
            forall|m: u8| #![auto] m < 8 && m != 6 ==> bit8(final(self).0, m) == bit8(old(self).0, m),
    {
        self.set_flag(6, v);
    }

    pub fn sprite_overflow(&self) -> (r: bool)
        ensures
            r == bit8(self.0, 5),
    {
        (self.0 >> 5u8) & 1 == 1
    }

    pub fn set_sprite_overflow(&mut self, v: bool)
        ensures
            bit8(final(self).0, 5) == v,
            forall|m: u8| #![auto] m < 8 && m != 5 ==> bit8(final(self).0, m) == bit8(old(self).0, m),
    {
        self.set_flag(5, v);
    }

    pub fn enable_vertical_blank(&mut self)
        ensures
            bit8(final(self).0, 7),
            forall|m: u8| #![auto] m < 8 && m != 7 ==> bit8(final(self).0, m) == bit8(old(self).0, m),
    {
        self.set_flag(7, true);
    }

    pub fn enable_sprite_zero_hit(&mut self)
        ensures
            bit8(final(self).0, 6),
            forall|m: u8| #![auto] m < 8 && m != 6 ==> bit8(final(self).0, m) == bit8(old(self).0, m),
    {
        self.set_flag(6, true);
    }

    pub fn enable_sprite_overflow(&mut self)
        ensures
            bit8(final(self).0, 5),
            forall|m: u8| #![auto] m < 8 && m != 5 ==> bit8(final(self).0, m) == bit8(old(self).0, m),
    {
        self.set_flag(5, true);
    }

    pub fn disable_vertical_blank(&mut self)
        ensures
            !bit8(final(self).0, 7),
            forall|m: u8| #![auto] m < 8 && m != 7 ==> bit8(final(self).0, m) == bit8(old(self).0, m),
    {
        self.set_flag(7, false);
    }

    pub fn disable_sprite_zero_hit(&mut self)
        ensures
            !bit8(final(self).0, 6),
            forall|m: u8| #![auto] m < 8 && m != 6 ==> bit8(final(self).0, m) == bit8(old(self).0, m),
    {
        self.set_flag(6, false);
    }

    pub fn disable_sprite_overflow(&mut self)
        ensures
            !bit8(final(self).0, 5),
            forall|m: u8| #![auto] m < 8 && m != 5 ==> bit8(final(self).0, m) == bit8(old(self).0, m),
    {
        self.set_flag(5, false);
    }
}

} // verus!
