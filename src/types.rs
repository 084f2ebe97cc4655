//! Width-typed scalars: every operation wraps around like the hardware does.
use crate::bits::{bit16, bit8};
use vstd::prelude::*;

verus! {

/// An unsigned 8-bit value of the data bus.
#[derive(Clone, Copy, Debug, PartialEq, Eq, Structural)]
pub struct Byte(pub u8);

/// An unsigned 16-bit value.
#[derive(Clone, Copy, Debug, PartialEq, Eq, Structural)]
pub struct Word(pub u16);

/// A 16-bit CPU or PPU address; arithmetic wraps modulo 2^16.
#[derive(Clone, Copy, Debug, PartialEq, Eq, Structural)]
pub struct Addr(pub u16);

/// A 32-bit offset into cartridge memory, produced by a mapper.
#[derive(Clone, Copy, Debug, PartialEq, Eq, Structural)]
pub struct ExtAddr(pub u32);

impl Byte {
    pub fn as_hi_word(&self) -> (r: Word)
        ensures
            r.0 == self.0 as int * 256,
    {
        Word(self.0 as u16 * 256)
    }

    pub fn as_lo_word(&self) -> (r: Word)
        ensures
            r.0 == self.0,
    {
        Word(self.0 as u16)
    }

    pub fn as_hi_addr(&self) -> (r: Addr)
        ensures
            r.0 == self.0 as int * 256,
    {
        Addr(self.0 as u16 * 256)
    }

    pub fn as_lo_addr(&self) -> (r: Addr)
        ensures
            r.0 == self.0,
    {
        Addr(self.0 as u16)
    }

    pub fn is_pos(&self) -> (r: bool)
        ensures
            r == (self.0 < 0x80),
    {
        self.0 < 0x80
    }

    pub fn is_neg(&self) -> (r: bool)
        ensures
            r == (self.0 >= 0x80),
    {
        !self.is_pos()
    }

    pub fn with_set() -> (r: Byte)
        ensures
            r.0 == 0xFF,
    {
        Byte(0xFF)
    }

    pub fn is_set(&self) -> (r: bool)
        ensures
            r == (self.0 == 0xFF),
    {
        self.0 == 0xFF
    }

    pub fn is_clear(&self) -> (r: bool)
        ensures
            r == (self.0 == 0),
    {
        self.0 == 0
    }

    /// Bit `bit_no` of the value; false for a bit number past 7.
    pub fn inspect_bit(&self, bit_no: u8) -> (r: bool)
        ensures
            r == (bit_no < 8 && bit8(self.0, bit_no)),
    {
        if bit_no < 8 {
            (self.0 >> bit_no) & 1 == 1
        } else {
            false
        }
    }

    pub fn inc(&mut self) -> (r: Byte)
        ensures
            final(self).0 == (old(self).0 + 1) % 256,
            r == *final(self),
    {
        self.0 = if self.0 == 0xFF { 0 } else { self.0 + 1 };
        *self
    }

    pub fn dec(&mut self) -> (r: Byte)
        ensures
            final(self).0 == (old(self).0 + 255) % 256,
            r == *final(self),
    {
        self.0 = if self.0 == 0 { 0xFF } else { self.0 - 1 };
        *self
    }

    pub fn overflowing_add(&mut self, op: Byte) -> (r: Byte)
        ensures
            final(self).0 == (old(self).0 + op.0) % 256,
            r == *final(self),
    {
        self.0 = ((self.0 as u16 + op.0 as u16) % 256) as u8;
        *self
    }

    pub fn overflowing_sub(&mut self, op: Byte) -> (r: Byte)
        ensures
            final(self).0 == (old(self).0 + 256 - op.0) % 256,
            r == *final(self),
    {
        self.0 = ((self.0 as u16 + 256 - op.0 as u16) % 256) as u8;
        *self
    }
}

impl Word {
    pub fn lo(&self) -> (r: Byte)
        ensures
            r.0 == self.0 % 256,
    {
        Byte((self.0 % 256) as u8)
    }

    pub fn hi(&self) -> (r: Byte)
        ensures
            r.0 == self.0 / 256,
    {
        Byte((self.0 / 256) as u8)
    }

    pub fn lo_word(&self) -> (r: Word)
        ensures
            r.0 == self.0 % 256,
    {
        Word(self.0 % 256)
    }

    pub fn hi_word(&self) -> (r: Word)
        ensures
            r.0 == self.0 - self.0 % 256,
    {
        Word(self.0 - self.0 % 256)
    }

    /// Bit `bit_no` of the value; false for a bit number past 15.
    pub fn inspect_bit(&self, bit_no: u16) -> (r: bool)
        ensures
            r == (bit_no < 16 && bit16(self.0, bit_no)),
    {
        if bit_no < 16 {
            (self.0 >> bit_no) & 1 == 1
        } else {
            false
        }
    }

    pub fn set_lo(&mut self, v: Byte)
        ensures
            final(self).0 == old(self).0 - old(self).0 % 256 + v.0,
    {
        self.0 = self.0 - self.0 % 256 + v.0 as u16;
    }

    pub fn set_hi(&mut self, v: Byte)
        ensures
            final(self).0 == v.0 as int * 256 + old(self).0 % 256,
    {
        self.0 = v.0 as u16 * 256 + self.0 % 256;
    }

    pub fn from_bytes(lo: Byte, hi: Byte) -> (r: Word)
        ensures
            r.0 == hi.0 as int * 256 + lo.0,
    {
        Word(hi.0 as u16 * 256 + lo.0 as u16)
    }

    pub fn with_hi_set() -> (r: Word)
        ensures
            r.0 == 0xFF00,
    {
        Word(0xFF00)
    }

    pub fn with_lo_set() -> (r: Word)
        ensures
            r.0 == 0x00FF,
    {
        Word(0x00FF)
    }

    pub fn inc(&mut self) -> (r: Word)
        ensures
            final(self).0 == (old(self).0 + 1) % 0x10000,
            r == *final(self),
    {
        self.0 = if self.0 == 0xFFFF { 0 } else { self.0 + 1 };
        *self
    }

    pub fn overflowing_add(&mut self, op: Word) -> (r: Word)
        ensures
            final(self).0 == (old(self).0 + op.0) % 0x10000,
            r == *final(self),
    {
        self.0 = ((self.0 as u32 + op.0 as u32) % 0x10000) as u16;
        *self
    }

    pub fn overflowing_sub(&mut self, op: Word) -> (r: Word)
        ensures
            final(self).0 == (old(self).0 + 0x10000 - op.0) % 0x10000,
            r == *final(self),
    {
        self.0 = ((self.0 as u32 + 0x10000 - op.0 as u32) % 0x10000) as u16;
        *self
    }
}

impl Addr {
    pub fn lo(&self) -> (r: Byte)
        ensures
            r.0 == self.0 % 256,
    {
        Byte((self.0 % 256) as u8)
    }

    pub fn hi(&self) -> (r: Byte)
        ensures
            r.0 == self.0 / 256,
    {
        Byte((self.0 / 256) as u8)
    }

    pub fn lo_addr(&self) -> (r: Addr)
        ensures
            r.0 == self.0 % 256,
    {
        Addr(self.0 % 256)
    }

    pub fn hi_addr(&self) -> (r: Addr)
        ensures
            r.0 == self.0 - self.0 % 256,
    {
        Addr(self.0 - self.0 % 256)
    }

    pub fn as_lo_ext_addr(&self) -> (r: ExtAddr)
        ensures
            r.0 == self.0,
    {
        ExtAddr(self.0 as u32)
    }

    pub fn as_hi_ext_addr(&self) -> (r: ExtAddr)
        ensures
            r.0 == self.0 as int * 0x10000,
    {
        ExtAddr(self.0 as u32 * 0x10000)
    }

    pub fn set_lo(&mut self, v: Byte)
        ensures
            final(self).0 == old(self).0 - old(self).0 % 256 + v.0,
    {
        self.0 = self.0 - self.0 % 256 + v.0 as u16;
    }

    pub fn set_hi(&mut self, v: Byte)
        ensures
            final(self).0 == v.0 as int * 256 + old(self).0 % 256,
    {
        self.0 = v.0 as u16 * 256 + self.0 % 256;
    }

    pub fn as_usize(&self) -> (r: usize)
        ensures
            r == self.0,
    {
        self.0 as usize
    }

    pub fn from_bytes(lo: Byte, hi: Byte) -> (r: Addr)
        ensures
            r.0 == hi.0 as int * 256 + lo.0,
    {
        Addr(hi.0 as u16 * 256 + lo.0 as u16)
    }

    pub fn with_hi_set() -> (r: Addr)
        ensures
            r.0 == 0xFF00,
    {
        Addr(0xFF00)
    }

    pub fn with_lo_set() -> (r: Addr)
        ensures
            r.0 == 0x00FF,
    {
        Addr(0x00FF)
    }

    /// Bit `bit_no` of the address; false for a bit number past 15.
    pub fn inspect_bit(&self, bit_no: u16) -> (r: bool)
        ensures
            r == (bit_no < 16 && bit16(self.0, bit_no)),
    {
        if bit_no < 16 {
            (self.0 >> bit_no) & 1 == 1
        } else {
            false
        }
    }

    pub fn inc(&mut self) -> (r: Addr)
        ensures
            final(self).0 == (old(self).0 + 1) % 0x10000,
            r == *final(self),
    {
        self.0 = if self.0 == 0xFFFF { 0 } else { self.0 + 1 };
        *self
    }

    pub fn dec(&mut self) -> (r: Addr)
        ensures
            final(self).0 == (old(self).0 + 0xFFFF) % 0x10000,
            r == *final(self),
    {
        self.0 = if self.0 == 0 { 0xFFFF } else { self.0 - 1 };
        *self
    }

    pub fn overflowing_add(&mut self, op: Addr) -> (r: Addr)
        ensures
            final(self).0 == (old(self).0 + op.0) % 0x10000,
            r == *final(self),
    {
        self.0 = ((self.0 as u32 + op.0 as u32) % 0x10000) as u16;
        *self
    }

    pub fn overflowing_sub(&mut self, op: Addr) -> (r: Addr)
        ensures
            final(self).0 == (old(self).0 + 0x10000 - op.0) % 0x10000,
            r == *final(self),
    {
        self.0 = ((self.0 as u32 + 0x10000 - op.0 as u32) % 0x10000) as u16;
        *self
    }
}

impl ExtAddr {
    pub fn as_usize(&self) -> (r: usize)
        ensures
            r == self.0,
    {
        self.0 as usize
    }
}

/// A memory of `n` cells, each holding `v`.
pub fn filled(n: usize, v: Byte) -> (r: Vec<Byte>)
    ensures
        r@.len() == n,
        forall|i: int| 0 <= i < n ==> r@[i] == v,
{
    let mut r: Vec<Byte> = Vec::with_capacity(n);
    let mut i: usize = 0;
    while i < n
        invariant
            i <= n,
            r@.len() == i,
            forall|j: int| 0 <= j < i ==> r@[j] == v,
        decreases n - i,
    {
        r.push(v);
        i = i + 1;
    }
    r
}

} // verus!
