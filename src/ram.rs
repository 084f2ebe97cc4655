//! The console's 2 KiB of work RAM, mirrored over 0x0000-0x1FFF.
use crate::types::{filled, Addr, Byte};
use vstd::prelude::*;

verus! {

/// Physical size of the work RAM.
pub const RAM_SIZE: usize = 2048;

/// The cell that a CPU address selects: the RAM repeats every 0x0800 bytes.
pub open spec fn ram_index(addr: u16) -> int {
    addr as int % 0x0800
}

/// Work RAM as seen from the CPU.
pub struct Ram {
    pub mem: Vec<Byte>,
}

impl Ram {
    pub open spec fn wf(&self) -> bool {
        self.mem@.len() == RAM_SIZE
    }

    pub fn new() -> (r: Ram)
        ensures
            r.wf(),
            forall|i: int| 0 <= i < RAM_SIZE ==> r.mem@[i] == Byte(0),
    {
        Ram { mem: filled(RAM_SIZE, Byte(0)) }
    }

    pub fn read(&self, addr: Addr) -> (r: Byte)
        requires
            self.wf(),
        ensures
            r == self.mem@[ram_index(addr.0)],
    {
        self.mem[(addr.0 % 0x0800) as usize]
    }

    pub fn write(&mut self, addr: Addr, v: Byte)
        requires
            old(self).wf(),
        ensures
            final(self).wf(),
            final(self).mem@ == old(self).mem@.update(ram_index(addr.0), v),
    {
        self.mem.set((addr.0 % 0x0800) as usize, v);
    }

    pub fn size(&self) -> (r: usize)
        ensures
            r == self.mem@.len(),
    {
        self.mem.len()
    }

    pub fn dump(&self) -> (r: &Vec<Byte>)
        ensures
            r@ == self.mem@,
    {
        &self.mem
    }
}

/// Writing a RAM cell and reading it back through any mirror gives the value
/// written; every cell of another residue keeps its value.
pub proof fn lemma_ram_write_read(mem: Seq<Byte>, a: u16, b: u16, v: Byte)
    requires
        mem.len() == RAM_SIZE,
    ensures
        a as int % 0x0800 == b as int % 0x0800 ==> mem.update(ram_index(a), v)[ram_index(b)] == v,
        a as int % 0x0800 != b as int % 0x0800 ==> mem.update(ram_index(a), v)[ram_index(b)] == mem[ram_index(b)],
{
}

/// An 8 KiB backing store addressed through the same 0x07FF mask.
pub struct InternalRam {
    pub mem: Vec<Byte>,
}

/// Size of the backing store of `InternalRam`.
pub const INTERNAL_RAM_SIZE: usize = 8192;

impl InternalRam {
    pub open spec fn wf(&self) -> bool {
        self.mem@.len() == INTERNAL_RAM_SIZE
    }

    pub fn new() -> (r: InternalRam)
        ensures
            r.wf(),
            forall|i: int| 0 <= i < INTERNAL_RAM_SIZE ==> r.mem@[i] == Byte(0),
    {
        InternalRam { mem: filled(INTERNAL_RAM_SIZE, Byte(0)) }
    }

    pub fn read(&self, addr: Addr) -> (r: Byte)
        requires
            self.wf(),
        ensures
            r == self.mem@[ram_index(addr.0)],
    {
        self.mem[(addr.0 % 0x0800) as usize]
    }

    pub fn write(&mut self, addr: Addr, v: Byte)
        requires
            old(self).wf(),
        ensures
            final(self).wf(),
            final(self).mem@ == old(self).mem@.update(ram_index(addr.0), v),
    {
        self.mem.set((addr.0 % 0x0800) as usize, v);
    }

    pub fn size(&self) -> (r: usize)
        ensures
            r == self.mem@.len(),
    {
        self.mem.len()
    }

    pub fn dump(&self) -> (r: &Vec<Byte>)
        ensures
            r@ == self.mem@,
    {
        &self.mem
    }
}

} // verus!
