//! OAMADDR and OAMDATA: a cursor into OAM and the port through it.
use crate::types::{Addr, Byte};
use vstd::prelude::*;

verus! {

#[derive(Clone, Copy, Debug, PartialEq, Eq, Structural)]
pub struct Oam {
    pub addr: Addr,
}

impl Oam {
    pub open spec fn wf(&self) -> bool {
        self.addr.0 < 256
    }

    pub fn new() -> (r: Oam)
        ensures
            r.wf(),
            r.addr.0 == 0,
    {
        Oam { addr: Addr(0x0000) }
    }

    pub fn reset(&mut self)
        ensures
            final(self).wf(),
            final(self).addr.0 == 0,
    {
        self.addr = Addr(0x0000);
    }

    pub fn addr(&self) -> (r: Addr)
        ensures
            r == self.addr,
    {
        self.addr
    }

    /// OAMADDR: sets the cursor.
    pub fn write_addr(&mut self, v: Byte)
        ensures
            final(self).wf(),
            final(self).addr.0 == v.0,
    {
        self.addr = v.as_lo_addr();
    }

    /// OAMDATA write: stores at the cursor, which then moves on.
    pub fn write_data(&mut self, oam_mem: &mut Vec<Byte>, v: Byte)
        requires
            old(self).wf(),
            old(oam_mem)@.len() == 256,
        ensures
            final(self).wf(),
            final(oam_mem)@ == old(oam_mem)@.update(old(self).addr.0 as int, v),
            final(self).addr.0 == (old(self).addr.0 + 1) % 256,
    {
        oam_mem.set(self.addr.as_usize(), v);
        self.addr = Addr((self.addr.0 + 1) % 256);
    }

    /// OAMDATA read: the byte at the cursor, which stays put.
    pub fn read_data(&self, oam_mem: &Vec<Byte>) -> (r: Byte)
        requires
            self.wf(),
            oam_mem@.len() == 256,
        ensures
            r == oam_mem@[self.addr.0 as int],
    {
        oam_mem[self.addr.as_usize()]
    }
}

} // verus!
