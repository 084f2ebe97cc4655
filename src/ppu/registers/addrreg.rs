//! The loopy registers `v` and `t`: `0yyy NNYY YYYX XXXX`, fine Y, nametable
//! select, coarse Y and coarse X.
use crate::types::Addr;
use vstd::prelude::*;

verus! {

pub open spec fn coarse_x_of(v: u16) -> int {
    v as int % 32
}

pub open spec fn coarse_y_of(v: u16) -> int {
    (v as int / 32) % 32
}

pub open spec fn nametable_x_of(v: u16) -> bool {
    (v as int / 1024) % 2 == 1
}

pub open spec fn nametable_y_of(v: u16) -> bool {
    (v as int / 2048) % 2 == 1
}

pub open spec fn fine_y_of(v: u16) -> int {
    (v as int / 4096) % 8
}

/// A 15-bit scroll/address register.
#[derive(Clone, Copy, Debug, PartialEq, Eq, Structural)]
pub struct AddrReg(pub u16);

impl AddrReg {
    /// The register holds 15 bits.
    pub open spec fn wf(&self) -> bool {
        self.0 < 0x8000
    }

    pub fn new() -> (r: AddrReg)
        ensures
            r.wf(),
            r.0 == 0,
    {
        AddrReg(0)
    }

    pub fn addr(&self) -> (r: Addr)
        ensures
            r.0 == self.0,
    {
        Addr(self.0)
    }

    pub fn coarse_x(&self) -> (r: Addr)
        ensures
            r.0 == coarse_x_of(self.0),
    {
        Addr(self.0 % 32)
    }

    pub fn coarse_y(&self) -> (r: Addr)
        ensures
            r.0 == coarse_y_of(self.0),
    {
        Addr((self.0 / 32) % 32)
    }

    pub fn nametable_x(&self) -> (r: bool)
        ensures
            r == nametable_x_of(self.0),
    {
        (self.0 / 1024) % 2 == 1
    }

    pub fn nametable_y(&self) -> (r: bool)
        ensures
            r == nametable_y_of(self.0),
    {
        (self.0 / 2048) % 2 == 1
    }

    pub fn fine_y(&self) -> (r: Addr)
        ensures
            r.0 == fine_y_of(self.0),
    {
        Addr((self.0 / 4096) % 8)
    }

    /// Stores the low five bits of `k` as coarse X.
    pub fn set_coarse_x(&mut self, k: Addr)
        requires
            old(self).wf(),
        ensures
            final(self).wf(),
            coarse_x_of(final(self).0) == k.0 % 32,
            coarse_y_of(final(self).0) == coarse_y_of(old(self).0),
            nametable_x_of(final(self).0) == nametable_x_of(old(self).0),
            nametable_y_of(final(self).0) == nametable_y_of(old(self).0),
            fine_y_of(final(self).0) == fine_y_of(old(self).0),
    {
        self.0 = self.0 - self.0 % 32 + k.0 % 32;
    }

    /// Stores the low five bits of `k` as coarse Y.
    pub fn set_coarse_y(&mut self, k: Addr)
        requires
            old(self).wf(),
        ensures
            final(self).wf(),
            coarse_x_of(final(self).0) == coarse_x_of(old(self).0),
            coarse_y_of(final(self).0) == k.0 % 32,
            nametable_x_of(final(self).0) == nametable_x_of(old(self).0),
            nametable_y_of(final(self).0) == nametable_y_of(old(self).0),
            fine_y_of(final(self).0) == fine_y_of(old(self).0),
    {
        let old_y = (self.0 / 32) % 32;
        self.0 = self.0 - old_y * 32 + (k.0 % 32) * 32;
    }

    pub fn set_nametable_x(&mut self, b: bool)
        requires
            old(self).wf(),
        ensures
            final(self).wf(),
            coarse_x_of(final(self).0) == coarse_x_of(old(self).0),
            coarse_y_of(final(self).0) == coarse_y_of(old(self).0),
            nametable_x_of(final(self).0) == b,
            nametable_y_of(final(self).0) == nametable_y_of(old(self).0),
            fine_y_of(final(self).0) == fine_y_of(old(self).0),
    {
        let old_n = (self.0 / 1024) % 2;
        self.0 = self.0 - old_n * 1024 + if b { 1024 } else { 0 };
    }

    pub fn set_nametable_y(&mut self, b: bool)
        requires
            old(self).wf(),
        ensures
            final(self).wf(),
            coarse_x_of(final(self).0) == coarse_x_of(old(self).0),
            coarse_y_of(final(self).0) == coarse_y_of(old(self).0),
            nametable_x_of(final(self).0) == nametable_x_of(old(self).0),
            nametable_y_of(final(self).0) == b,
            fine_y_of(final(self).0) == fine_y_of(old(self).0),
    {
        let old_n = (self.0 / 2048) % 2;
        self.0 = self.0 - old_n * 2048 + if b { 2048 } else { 0 };
    }

    /// Stores the low three bits of `k` as fine Y.
    pub fn set_fine_y(&mut self, k: Addr)
        requires
            old(self).wf(),
        ensures
            final(self).wf(),
            coarse_x_of(final(self).0) == coarse_x_of(old(self).0),
            coarse_y_of(final(self).0) == coarse_y_of(old(self).0),
            nametable_x_of(final(self).0) == nametable_x_of(old(self).0),
            nametable_y_of(final(self).0) == nametable_y_of(old(self).0),
            fine_y_of(final(self).0) == k.0 % 8,
    {
        let old_f = (self.0 / 4096) % 8;
        self.0 = self.0 - old_f * 4096 + (k.0 % 8) * 4096;
    }

    pub fn inc_coarse_x(&mut self)
        requires
            old(self).wf(),
        ensures
            final(self).wf(),
            coarse_x_of(final(self).0) == (coarse_x_of(old(self).0) + 1) % 32,
            coarse_y_of(final(self).0) == coarse_y_of(old(self).0),
            nametable_x_of(final(self).0) == nametable_x_of(old(self).0),
            nametable_y_of(final(self).0) == nametable_y_of(old(self).0),
            fine_y_of(final(self).0) == fine_y_of(old(self).0),
    {
        let x = self.coarse_x();
        self.set_coarse_x(Addr(x.0 + 1));
    }

    pub fn inc_coarse_y(&mut self)
        requires
            old(self).wf(),
        ensures
            final(self).wf(),
            coarse_x_of(final(self).0) == coarse_x_of(old(self).0),
            coarse_y_of(final(self).0) == (coarse_y_of(old(self).0) + 1) % 32,
            nametable_x_of(final(self).0) == nametable_x_of(old(self).0),
            nametable_y_of(final(self).0) == nametable_y_of(old(self).0),
            fine_y_of(final(self).0) == fine_y_of(old(self).0),
    {
        let y = self.coarse_y();
        self.set_coarse_y(Addr(y.0 + 1));
    }

    pub fn inc_fine_y(&mut self)
        requires
            old(self).wf(),
        ensures
            final(self).wf(),
            coarse_x_of(final(self).0) == coarse_x_of(old(self).0),
            coarse_y_of(final(self).0) == coarse_y_of(old(self).0),
            nametable_x_of(final(self).0) == nametable_x_of(old(self).0),
            nametable_y_of(final(self).0) == nametable_y_of(old(self).0),
            fine_y_of(final(self).0) == (fine_y_of(old(self).0) + 1) % 8,
    {
        let f = self.fine_y();
        self.set_fine_y(Addr(f.0 + 1));
    }
}

} // verus!
