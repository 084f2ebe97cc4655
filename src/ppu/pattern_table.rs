//! Two 4 KiB pattern tables of tile bitmaps, 0x0000-0x0FFF and 0x1000-0x1FFF.
use crate::types::{filled, Addr, Byte};
use vstd::prelude::*;

verus! {

/// Size of one pattern table.
pub const PATTERN_TABLE_SIZE: usize = 4096;

pub struct PatternTable {
    pub mem_0: Vec<Byte>,
    pub mem_1: Vec<Byte>,
}

impl PatternTable {
    pub open spec fn wf(&self) -> bool {
        self.mem_0@.len() == PATTERN_TABLE_SIZE && self.mem_1@.len() == PATTERN_TABLE_SIZE
    }

    pub fn new() -> (r: PatternTable)
        ensures
            r.wf(),
    {
        PatternTable {
            mem_0: filled(PATTERN_TABLE_SIZE, Byte(0)),
            mem_1: filled(PATTERN_TABLE_SIZE, Byte(0)),
        }
    }

    /// Bit 12 of the address selects the table, the low 12 bits the cell.
    pub fn read(&self, addr: Addr) -> (r: Byte)
        requires
            self.wf(),
        ensures
            (addr.0 / 0x1000) % 2 == 0 ==> r == self.mem_0@[addr.0 as int % 0x1000],
            (addr.0 / 0x1000) % 2 == 1 ==> r == self.mem_1@[addr.0 as int % 0x1000],
    {
        let sub_addr = (addr.0 % 0x1000) as usize;
        if (addr.0 / 0x1000) % 2 == 0 {
            self.mem_0[sub_addr]
        } else {
            self.mem_1[sub_addr]
        }
    }

    pub fn write(&mut self, addr: Addr, v: Byte)
        requires
            old(self).wf(),
        ensures
            final(self).wf(),
            (addr.0 / 0x1000) % 2 == 0 ==> final(self).mem_0@ == old(self).mem_0@.update(
                addr.0 as int % 0x1000,
                v,
            ) && final(self).mem_1@ == old(self).mem_1@,
            (addr.0 / 0x1000) % 2 == 1 ==> final(self).mem_1@ == old(self).mem_1@.update(
                addr.0 as int % 0x1000,
                v,
            ) && final(self).mem_0@ == old(self).mem_0@,
    {
        let sub_addr = (addr.0 % 0x1000) as usize;
        if (addr.0 / 0x1000) % 2 == 0 {
            self.mem_0.set(sub_addr, v);
        } else {
            self.mem_1.set(sub_addr, v);
        }
    }
}

} // verus!
