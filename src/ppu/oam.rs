//! Object attribute memory: 64 sprites of four bytes each.
use crate::types::{filled, Addr, Byte};
use vstd::prelude::*;

verus! {

/// Size of OAM in bytes.
pub const OAM_SIZE: usize = 256;

/// One sprite: Y position, tile id, attributes, X position.
#[derive(Clone, Copy, Debug, PartialEq, Eq, Structural)]
pub struct OamEntry {
    pub y: Byte,
    pub id: Byte,
    pub attr: Byte,
    pub x: Byte,
}

impl OamEntry {
    pub fn new() -> (r: OamEntry)
        ensures
            r == (OamEntry { y: Byte(0), id: Byte(0), attr: Byte(0), x: Byte(0) }),
    {
        OamEntry { y: Byte(0), id: Byte(0), attr: Byte(0), x: Byte(0) }
    }

    pub fn from_bytes(v: (Byte, Byte, Byte, Byte)) -> (r: OamEntry)
        ensures
            r == (OamEntry { y: v.0, id: v.1, attr: v.2, x: v.3 }),
    {
        OamEntry { y: v.0, id: v.1, attr: v.2, x: v.3 }
    }

    pub fn into_bytes(self) -> (r: (Byte, Byte, Byte, Byte))
        ensures
            r == (self.y, self.id, self.attr, self.x),
    {
        (self.y, self.id, self.attr, self.x)
    }
}

/// The sprite stored at entry `i` of `mem`.
pub open spec fn entry_at(mem: Seq<Byte>, i: int) -> OamEntry {
    OamEntry { y: mem[4 * i], id: mem[4 * i + 1], attr: mem[4 * i + 2], x: mem[4 * i + 3] }
}

/// `mem` with entry `i` replaced by `e`.
pub open spec fn with_entry(mem: Seq<Byte>, i: int, e: OamEntry) -> Seq<Byte> {
    mem.update(4 * i, e.y).update(4 * i + 1, e.id).update(4 * i + 2, e.attr).update(4 * i + 3, e.x)
}

pub struct Oam {
    pub mem: Vec<Byte>,
}

impl Oam {
    pub open spec fn wf(&self) -> bool {
        self.mem@.len() == OAM_SIZE
    }

    pub fn new() -> (r: Oam)
        ensures
            r.wf(),
            forall|i: int| 0 <= i < OAM_SIZE ==> r.mem@[i] == Byte(0),
    {
        Oam { mem: filled(OAM_SIZE, Byte(0)) }
    }

    pub fn read(&self, addr: Addr) -> (r: Byte)
        requires
            self.wf(),
            addr.0 < 256,
        ensures
            r == self.mem@[addr.0 as int],
    {
        self.mem[addr.as_usize()]
    }

    pub fn write(&mut self, addr: Addr, v: Byte)
        requires
            old(self).wf(),
            addr.0 < 256,
        ensures
            final(self).wf(),
            final(self).mem@ == old(self).mem@.update(addr.0 as int, v),
    {
        self.mem.set(addr.as_usize(), v);
    }

    pub fn read_entry(&self, entry_ind: Addr) -> (r: OamEntry)
        requires
            self.wf(),
            entry_ind.0 < 64,
        ensures
            r == entry_at(self.mem@, entry_ind.0 as int),
    {
        let start = entry_ind.as_usize() * 4;
        OamEntry::from_bytes(
            (self.mem[start], self.mem[start + 1], self.mem[start + 2], self.mem[start + 3]),
        )
    }

    pub fn write_entry(&mut self, entry_ind: Addr, entry: OamEntry)
        requires
            old(self).wf(),
            entry_ind.0 < 64,
        ensures
            final(self).wf(),
            final(self).mem@ == with_entry(old(self).mem@, entry_ind.0 as int, entry),
    {
        let start = entry_ind.as_usize() * 4;
        let v = entry.into_bytes();
        self.mem.set(start, v.0);
        self.mem.set(start + 1, v.1);
        self.mem.set(start + 2, v.2);
        self.mem.set(start + 3, v.3);
    }

    pub fn size(&self) -> (r: usize)
        ensures
            r == self.mem@.len(),
    {
        self.mem.len()
    }

    pub fn dump(&self) -> (r: &Vec<Byte>)
        ensures
            r@ == self.mem@,
    {
        &self.mem
    }
}

/// Writing entry `i` and reading entry `i` back gives the entry written;
/// every other entry keeps its value.
pub proof fn lemma_oam_entry_round_trip(mem: Seq<Byte>, i: int, j: int, e: OamEntry)
    requires
        mem.len() == OAM_SIZE,
        0 <= i < 64,
        0 <= j < 64,
    ensures
        entry_at(with_entry(mem, i, e), i) == e,
        i != j ==> entry_at(with_entry(mem, i, e), j) == entry_at(mem, j),
{
}

} // verus!
