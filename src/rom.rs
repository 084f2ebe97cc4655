//! A read-only byte image.
use crate::types::{Addr, Byte};
use vstd::prelude::*;

verus! {

pub struct Rom {
    pub mem: Vec<Byte>,
}

impl Rom {
    pub fn new(buf: Vec<Byte>) -> (r: Rom)
        ensures
            r.mem@ == buf@,
    {
        Rom { mem: buf }
    }

    pub fn read(&self, addr: Addr) -> (r: Byte)
        requires
            (addr.0 as int) < self.mem@.len(),
        ensures
            r == self.mem@[addr.0 as int],
    {
        self.mem[addr.0 as usize]
    }

    pub fn size(&self) -> (r: usize)
        ensures
            r == self.mem@.len(),
    {
        self.mem.len()
    }

    pub fn dump(&self) -> (r: &Vec<Byte>)
        ensures
            r@ == self.mem@,
    {
        &self.mem
    }
}

} // verus!
