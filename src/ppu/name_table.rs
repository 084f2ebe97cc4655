//! The two physical 1 KiB nametables behind the logical 0x2000-0x2FFF region.
use crate::cartridge::Mirror;
use crate::types::{filled, Addr, Byte};
use vstd::prelude::*;

verus! {

/// Size of one physical nametable.
pub const NAME_TABLE_SIZE: usize = 1024;

/// The physical table an address selects (false: the first), or none when the
/// mirroring is left to hardware that is not there.
pub open spec fn name_table_select(addr: u16, mirror: Mirror) -> Option<bool> {
    let a = addr as int % 0x1000;
    match mirror {
        Mirror::Horizontal => Some(a >= 0x0800),
        Mirror::Vertical => Some((a / 0x0400) % 2 == 1),
        Mirror::Hardware => None,
    }
}

/// The offset inside the selected table.
pub open spec fn name_table_offset(addr: u16) -> int {
    addr as int % 0x0400
}

pub struct NameTable {
    pub mem_0: Vec<Byte>,
    pub mem_1: Vec<Byte>,
}

impl NameTable {
    pub open spec fn wf(&self) -> bool {
        self.mem_0@.len() == NAME_TABLE_SIZE && self.mem_1@.len() == NAME_TABLE_SIZE
    }

    /// What a read of `addr` returns under `mirror`.
    pub open spec fn spec_read(&self, addr: u16, mirror: Mirror) -> Byte {
        match name_table_select(addr, mirror) {
            Some(false) => self.mem_0@[name_table_offset(addr)],
            Some(true) => self.mem_1@[name_table_offset(addr)],
            None => Byte(0),
        }
    }

    /// `after` is this nametable after a write of `v` to `addr` under `mirror`.
    pub open spec fn written_to(&self, after: &NameTable, addr: u16, v: Byte, mirror: Mirror) -> bool {
        match name_table_select(addr, mirror) {
            Some(false) => after.mem_0@ == self.mem_0@.update(name_table_offset(addr), v)
                && after.mem_1@ == self.mem_1@,
            Some(true) => after.mem_1@ == self.mem_1@.update(name_table_offset(addr), v)
                && after.mem_0@ == self.mem_0@,
            None => after.mem_0@ == self.mem_0@ && after.mem_1@ == self.mem_1@,
        }
    }

    pub fn new() -> (r: NameTable)
        ensures
            r.wf(),
            forall|i: int| 0 <= i < NAME_TABLE_SIZE ==> r.mem_0@[i] == Byte(0) && r.mem_1@[i] == Byte(0),
    {
        NameTable { mem_0: filled(NAME_TABLE_SIZE, Byte(0)), mem_1: filled(NAME_TABLE_SIZE, Byte(0)) }
    }

    fn select(addr: Addr, mirror: Mirror) -> (r: Option<bool>)
        ensures
            r == name_table_select(addr.0, mirror),
    {
        let a = addr.0 % 0x1000;
        match mirror {
            Mirror::Horizontal => Some(a >= 0x0800),
            Mirror::Vertical => Some((a / 0x0400) % 2 == 1),
            Mirror::Hardware => None,
        }
    }

    pub fn read(&self, addr: Addr, mirror: Mirror) -> (r: Byte)
        requires
            self.wf(),
        ensures
            r == self.spec_read(addr.0, mirror),
    {
        let sub_addr = (addr.0 % 0x0400) as usize;
        match Self::select(addr, mirror) {
            Some(false) => self.mem_0[sub_addr],
            Some(true) => self.mem_1[sub_addr],
            None => Byte(0),
        }
    }

    pub fn write(&mut self, addr: Addr, v: Byte, mirror: Mirror)
        requires
            old(self).wf(),
        ensures
            final(self).wf(),
            old(self).written_to(final(self), addr.0, v, mirror),
    {
        let sub_addr = (addr.0 % 0x0400) as usize;
        match Self::select(addr, mirror) {
            Some(false) => self.mem_0.set(sub_addr, v),
            Some(true) => self.mem_1.set(sub_addr, v),
            None => {},
        }
    }
}

} // verus!
