//! Palette memory: 32 bytes at 0x3F00, with the backdrop mirrors wired in.
use crate::types::{filled, Addr, Byte};
use vstd::prelude::*;

verus! {

/// Size of palette memory.
pub const PALETTE_SIZE: usize = 0x20;

/// Which half of palette memory a colour comes from.
#[derive(Clone, Copy, Debug, PartialEq, Eq, Structural)]
pub enum PaletteType {
    Sprite,
    Background,
}

/// The cell an address selects: 0x3F20-0x3FFF repeat the first 32 bytes, and
/// 0x10, 0x14, 0x18 and 0x1C are the same cells as 0x00, 0x04, 0x08, 0x0C.
pub open spec fn palette_index(addr: u16) -> int {
    let a = addr as int % 32;
    if a >= 16 && a % 4 == 0 {
        a - 16
    } else {
        a
    }
}

pub struct PaletteRam {
    pub mem: Vec<Byte>,
}

impl PaletteRam {
    pub open spec fn wf(&self) -> bool {
        self.mem@.len() == PALETTE_SIZE
    }

    pub fn new() -> (r: PaletteRam)
        ensures
            r.wf(),
            forall|i: int| 0 <= i < PALETTE_SIZE ==> r.mem@[i] == Byte(0),
    {
        PaletteRam { mem: filled(PALETTE_SIZE, Byte(0)) }
    }

    pub fn normalize_addr(addr: Addr) -> (r: Addr)
        ensures
            r.0 == palette_index(addr.0),
    {
        let a = addr.0 % 32;
        if a == 0x10 || a == 0x14 || a == 0x18 || a == 0x1C {
            Addr(a - 0x10)
        } else {
            Addr(a)
        }
    }

    pub fn read(&self, addr: Addr) -> (r: Byte)
        requires
            self.wf(),
        ensures
            r == self.mem@[palette_index(addr.0)],
    {
        let a = Self::normalize_addr(addr);
        self.mem[a.as_usize()]
    }

    pub fn write(&mut self, addr: Addr, v: Byte)
        requires
            old(self).wf(),
        ensures
            final(self).wf(),
            final(self).mem@ == old(self).mem@.update(palette_index(addr.0), v),
    {
        let a = Self::normalize_addr(addr);
        self.mem.set(a.as_usize(), v);
    }
}

} // verus!
