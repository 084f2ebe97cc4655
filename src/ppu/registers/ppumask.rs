//! PPUMASK (0x2001, write-only): grayscale, left-column masks, layer enables, emphasis.
use crate::bits::{bit8, set_bit8};
use crate::types::Byte;
use vstd::prelude::*;

verus! {

#[derive(Clone, Copy, Debug, PartialEq, Eq, Structural)]
pub struct PpuMask(pub u8);

impl PpuMask {
    pub fn new() -> (r: PpuMask)
        ensures
            r.0 == 0,
    {
        PpuMask(0)
    }

    pub fn from_byte(v: Byte) -> (r: PpuMask)
        ensures
            r.0 == v.0,
    {
        PpuMask(v.0)
    }

    pub fn to_byte(&self) -> (r: Byte)
        ensures
            r.0 == self.0,
    {
        Byte(self.0)
    }

    fn set_flag(&mut self, n: u8, v: bool)
        requires
            n < 8,
        ensures
            bit8(final(self).0, n) == v,
            forall|m: u8| #![auto] m < 8 && m != n ==> bit8(final(self).0, m) == bit8(old(self).0, m),
    {
        self.0 = set_bit8(self.0, n, v);
    }

    pub fn grayscale(&self) -> (r: bool)
        ensures
            r == bit8(self.0, 0),
    {
        (self.0 >> 0u8) & 1 == 1
    }

    pub fn set_grayscale(&mut self, v: bool)
        ensures
            bit8(final(self).0, 0) == v,
            forall|m: u8| #![auto] m < 8 && m != 0 ==> bit8(final(self).0, m) == bit8(old(self).0, m),
    {
        self.set_flag(0, v);
    }

    pub fn render_background_left(&self) -> (r: bool)
        ensures
            r == bit8(self.0, 1),
    {
        (self.0 >> 1u8) & 1 == 1
    }

    pub fn set_render_background_left(&mut self, v: bool)
        ensures
            bit8(final(self).0, 1) == v,
            forall|m: u8| #![auto] m < 8 && m != 1 ==> bit8(final(self).0, m) == bit8(old(self).0, m),
    {
        self.set_flag(1, v);
    }

    pub fn render_sprites_left(&self) -> (r: bool)
        ensures
            r == bit8(self.0, 2),
    {
        (self.0 >> 2u8) & 1 == 1
    }

    pub fn set_render_sprites_left(&mut self, v: bool)
        ensures
            bit8(final(self).0, 2) == v,
            forall|m: u8| #![auto] m < 8 && m != 2 ==> bit8(final(self).0, m) == bit8(old(self).0, m),
    {
        self.set_flag(2, v);
    }

    pub fn render_background(&self) -> (r: bool)
        ensures
            r == bit8(self.0, 3),
    {
        (self.0 >> 3u8) & 1 == 1
    }

    pub fn set_render_background(&mut self, v: bool)
        ensures
            bit8(final(self).0, 3) == v,
            forall|m: u8| #![auto] m < 8 && m != 3 ==> bit8(final(self).0, m) == bit8(old(self).0, m),
    {
        self.set_flag(3, v);
    }

    pub fn render_sprites(&self) -> (r: bool)
        ensures
            r == bit8(self.0, 4),
    {
        (self.0 >> 4u8) & 1 == 1
    }

    pub fn set_render_sprites(&mut self, v: bool)
        ensures
            bit8(final(self).0, 4) == v,
            forall|m: u8| #![auto] m < 8 && m != 4 ==> bit8(final(self).0, m) == bit8(old(self).0, m),
    {
        self.set_flag(4, v);
    }

    pub fn enhance_red(&self) -> (r: bool)
        ensures
            r == bit8(self.0, 5),
    {
        (self.0 >> 5u8) & 1 == 1
    }

    pub fn set_enhance_red(&mut self, v: bool)
        ensures
            bit8(final(self).0, 5) == v,
            forall|m: u8| #![auto] m < 8 && m != 5 ==> bit8(final(self).0, m) == bit8(old(self).0, m),
    {
        self.set_flag(5, v);
    }

    pub fn enhance_green(&self) -> (r: bool)
        ensures
            r == bit8(self.0, 6),
    {
        (self.0 >> 6u8) & 1 == 1
    }

    pub fn set_enhance_green(&mut self, v: bool)
        ensures
            bit8(final(self).0, 6) == v,
            forall|m: u8| #![auto] m < 8 && m != 6 ==> bit8(final(self).0, m) == bit8(old(self).0, m),
    {
        self.set_flag(6, v);
    }

    pub fn enhance_blue(&self) -> (r: bool)
        ensures
            r == bit8(self.0, 7),
    {
        (self.0 >> 7u8) & 1 == 1
    }

    pub fn set_enhance_blue(&mut self, v: bool)
        ensures
            bit8(final(self).0, 7) == v,
            forall|m: u8| #![auto] m < 8 && m != 7 ==> bit8(final(self).0, m) == bit8(old(self).0, m),
    {
        self.set_flag(7, v);
    }

    pub fn enable_grayscale(&mut self)
        ensures
            bit8(final(self).0, 0),
            forall|m: u8| #![auto] m < 8 && m != 0 ==> bit8(final(self).0, m) == bit8(old(self).0, m),
    {
        self.set_flag(0, true);
    }

    pub fn enable_render_background_left(&mut self)
        ensures
            bit8(final(self).0, 1),
            forall|m: u8| #![auto] m < 8 && m != 1 ==> bit8(final(self).0, m) == bit8(old(self).0, m),
    {
        self.set_flag(1, true);
    }

    pub fn enable_render_sprites_left(&mut self)
        ensures
            bit8(final(self).0, 2),
            forall|m: u8| #![auto] m < 8 && m != 2 ==> bit8(final(self).0, m) == bit8(old(self).0, m),
    {
        self.set_flag(2, true);
    }

    pub fn enable_render_background(&mut self)
        ensures
            bit8(final(self).0, 3),
            forall|m: u8| #![auto] m < 8 && m != 3 ==> bit8(final(self).0, m) == bit8(old(self).0, m),
    {
        self.set_flag(3, true);
    }

    pub fn enable_render_sprites(&mut self)
        ensures
            bit8(final(self).0, 4),
            forall|m: u8| #![auto] m < 8 && m != 4 ==> bit8(final(self).0, m) == bit8(old(self).0, m),
    {
        self.set_flag(4, true);
    }

    pub fn enable_enhance_red(&mut self)
        ensures
            bit8(final(self).0, 5),
            forall|m: u8| #![auto] m < 8 && m != 5 ==> bit8(final(self).0, m) == bit8(old(self).0, m),
    {
        self.set_flag(5, true);
    }

    pub fn enable_enhance_green(&mut self)
        ensures
            bit8(final(self).0, 6),
            forall|m: u8| #![auto] m < 8 && m != 6 ==> bit8(final(self).0, m) == bit8(old(self).0, m),
    {
        self.set_flag(6, true);
    }

    pub fn enable_enhance_blue(&mut self)
        ensures
            bit8(final(self).0, 7),
            forall|m: u8| #![auto] m < 8 && m != 7 ==> bit8(final(self).0, m) == bit8(old(self).0, m),
    {
        self.set_flag(7, true);
    }

    pub fn disable_grayscale(&mut self)
        ensures
            !bit8(final(self).0, 0),
            forall|m: u8| #![auto] m < 8 && m != 0 ==> bit8(final(self).0, m) == bit8(old(self).0, m),
    {
        self.set_flag(0, false);
    }

    pub fn disable_render_background_left(&mut self)
        ensures
            !bit8(final(self).0, 1),
            forall|m: u8| #![auto] m < 8 && m != 1 ==> bit8(final(self).0, m) == bit8(old(self).0, m),
    {
        self.set_flag(1, false);
    }

    pub fn disable_render_sprites_left(&mut self)
        ensures
            !bit8(final(self).0, 2),
            forall|m: u8| #![auto] m < 8 && m != 2 ==> bit8(final(self).0, m) == bit8(old(self).0, m),
    {
        self.set_flag(2, false);
    }

    pub fn disable_render_background(&mut self)
        ensures
            !bit8(final(self).0, 3),
            forall|m: u8| #![auto] m < 8 && m != 3 ==> bit8(final(self).0, m) == bit8(old(self).0, m),
    {
        self.set_flag(3, false);
    }

    pub fn disable_render_sprites(&mut self)
        ensures
            !bit8(final(self).0, 4),
            forall|m: u8| #![auto] m < 8 && m != 4 ==> bit8(final(self).0, m) == bit8(old(self).0, m),
    {
        self.set_flag(4, false);
    }

    pub fn disable_enhance_red(&mut self)
        ensures
            !bit8(final(self).0, 5),
            forall|m: u8| #![auto] m < 8 && m != 5 ==> bit8(final(self).0, m) == bit8(old(self).0, m),
    {
        self.set_flag(5, false);
    }

    pub fn disable_enhance_green(&mut self)
        ensures
            !bit8(final(self).0, 6),
            forall|m: u8| #![auto] m < 8 && m != 6 ==> bit8(final(self).0, m) == bit8(old(self).0, m),
    {
        self.set_flag(6, false);
    }

    pub fn disable_enhance_blue(&mut self)
        ensures
            !bit8(final(self).0, 7),
            forall|m: u8| #![auto] m < 8 && m != 7 ==> bit8(final(self).0, m) == bit8(old(self).0, m),
    {
        self.set_flag(7, false);
    }
}

} // verus!
