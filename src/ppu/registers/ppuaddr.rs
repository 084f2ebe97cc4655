//! PPUADDR as a 16-bit address written high byte first.
use crate::types::{Addr, Byte};
use vstd::prelude::*;

verus! {

/// The byte the next write sets.
#[derive(Clone, Copy, Debug, PartialEq, Eq, Structural)]
pub enum Part {
    Hi,
    Lo,
}

#[derive(Clone, Copy, Debug, PartialEq, Eq, Structural)]
pub struct PpuAddr {
    pub addr: Addr,
    pub part: Part,
}

impl PpuAddr {
    pub fn new() -> (r: PpuAddr)
        ensures
            r == (PpuAddr { addr: Addr(0), part: Part::Hi }),
    {
        PpuAddr { addr: Addr(0x0000), part: Part::Hi }
    }

    pub fn set_part(&mut self, part: Part)
        ensures
            *final(self) == (PpuAddr { part, ..*old(self) }),
    {
        self.part = part;
    }

    pub fn set_part_hi(&mut self)
        ensures
            *final(self) == (PpuAddr { part: Part::Hi, ..*old(self) }),
    {
        self.set_part(Part::Hi);
    }

    pub fn set_part_lo(&mut self)
        ensures
            *final(self) == (PpuAddr { part: Part::Lo, ..*old(self) }),
    {
        self.set_part(Part::Lo);
    }

    pub fn addr(&self) -> (r: Addr)
        ensures
            r == self.addr,
    {
        self.addr
    }

    /// Moves the address on by `offset`, wrapping at 16 bits.
    pub fn update(&mut self, offset: Addr)
        ensures
            final(self).addr.0 == (old(self).addr.0 + offset.0) % 0x10000,
            final(self).part == old(self).part,
    {
        self.addr.overflowing_add(offset);
    }

    /// The first write sets the high byte, the second the low byte.
    pub fn write(&mut self, v: Byte)
        ensures
            old(self).part == Part::Hi ==> final(self).addr.0 == v.0 as int * 256 + old(self).addr.0 % 256
                && final(self).part == Part::Lo,
            old(self).part == Part::Lo ==> final(self).addr.0 == old(self).addr.0 - old(self).addr.0 % 256
                + v.0 && final(self).part == Part::Hi,
    {
        match self.part {
            Part::Hi => {
                self.addr.set_hi(v);
                self.part = Part::Lo;
            },
            Part::Lo => {
                self.addr.set_lo(v);
                self.part = Part::Hi;
            },
        }
    }
}

} // verus!
