//! The 6502 register file.
use crate::bits::{bit8, set_bit8, with_bit8};
use crate::types::{Addr, Byte};
use vstd::prelude::*;

verus! {

/// Position of each flag in the status byte P.
pub const CARRY_BIT: u8 = 0;
pub const ZERO_BIT: u8 = 1;
pub const INTERRUPT_BIT: u8 = 2;
pub const DECIMAL_BIT: u8 = 3;
pub const BREAK_BIT: u8 = 4;
pub const RESERVED_BIT: u8 = 5;
pub const OVERFLOW_BIT: u8 = 6;
pub const NEGATIVE_BIT: u8 = 7;

/// The status byte P: eight flags in fixed positions.
#[derive(Clone, Copy, Debug, PartialEq, Eq, Structural)]
pub struct StatusRegister(pub u8);

impl StatusRegister {
    /// The power-up status: only the reserved bit set.
    pub fn new() -> (r: StatusRegister)
        ensures
            r.0 == 0x20,
    {
        StatusRegister(0x20)
    }
}

/// Accumulator, index registers, stack pointer, program counter and status.
#[derive(Clone, Copy, Debug, PartialEq, Eq, Structural)]
pub struct Registers {
    pub a: Byte,
    pub x: Byte,
    pub y: Byte,
    pub sp: Byte,
    pub pc: Addr,
    pub status: StatusRegister,
}

impl Registers {
    /// Flag `n` of the status byte.
    pub open spec fn flag(&self, n: u8) -> bool {
        bit8(self.status.0, n)
    }

    /// The register file with flag `n` of P replaced by `v`.
    pub open spec fn with_flag(self, n: u8, v: bool) -> Registers {
        Registers { status: StatusRegister(with_bit8(self.status.0, n, v)), ..self }
    }

    /// The register file after N and Z are set from `v`.
    pub open spec fn with_nz(self, v: u8) -> Registers {
        self.with_flag(ZERO_BIT, v == 0).with_flag(NEGATIVE_BIT, v >= 0x80)
    }

    pub fn new() -> (r: Registers)
        ensures
            r.a.0 == 0 && r.x.0 == 0 && r.y.0 == 0,
            r.sp.0 == 0xFD,
            r.pc.0 == 0,
            r.status.0 == 0x24,
    {
        Registers {
            a: Byte(0),
            x: Byte(0),
            y: Byte(0),
            sp: Byte(0xFD),
            pc: Addr(0),
            status: StatusRegister(0x24),
        }
    }

    fn set_flag(&mut self, n: u8, v: bool)
        requires
            n < 8,
        ensures
            *final(self) == old(self).with_flag(n, v),
            final(self).flag(n) == v,
            forall|m: u8| #![auto] m < 8 && m != n ==> final(self).flag(m) == old(self).flag(m),
    {
        self.status = StatusRegister(set_bit8(self.status.0, n, v));
    }

    pub fn a(&self) -> (r: Byte)
        ensures
            r == self.a,
    {
        self.a
    }

    pub fn x(&self) -> (r: Byte)
        ensures
            r == self.x,
    {
        self.x
    }

    pub fn y(&self) -> (r: Byte)
        ensures
            r == self.y,
    {
        self.y
    }

    pub fn sp(&self) -> (r: Byte)
        ensures
            r == self.sp,
    {
        self.sp
    }

    pub fn pc(&self) -> (r: Addr)
        ensures
            r == self.pc,
    {
        self.pc
    }

    pub fn carry(&self) -> (r: bool)
        ensures
            r == self.flag(CARRY_BIT),
    {
        (self.status.0 >> CARRY_BIT) & 1 == 1
    }

    pub fn zero(&self) -> (r: bool)
        ensures
            r == self.flag(ZERO_BIT),
    {
        (self.status.0 >> ZERO_BIT) & 1 == 1
    }

    pub fn interrupt(&self) -> (r: bool)
        ensures
            r == self.flag(INTERRUPT_BIT),
    {
        (self.status.0 >> INTERRUPT_BIT) & 1 == 1
    }

    pub fn decimal_mode(&self) -> (r: bool)
        ensures
            r == self.flag(DECIMAL_BIT),
    {
        (self.status.0 >> DECIMAL_BIT) & 1 == 1
    }

    pub fn break_mode(&self) -> (r: bool)
        ensures
            r == self.flag(BREAK_BIT),
    {
        (self.status.0 >> BREAK_BIT) & 1 == 1
    }

    pub fn reserved(&self) -> (r: bool)
        ensures
            r == self.flag(RESERVED_BIT),
    {
        (self.status.0 >> RESERVED_BIT) & 1 == 1
    }

    pub fn overflow(&self) -> (r: bool)
        ensures
            r == self.flag(OVERFLOW_BIT),
    {
        (self.status.0 >> OVERFLOW_BIT) & 1 == 1
    }

    pub fn negative(&self) -> (r: bool)
        ensures
            r == self.flag(NEGATIVE_BIT),
    {
        (self.status.0 >> NEGATIVE_BIT) & 1 == 1
    }

    pub fn status(&self) -> (r: Byte)
        ensures
            r.0 == self.status.0,
    {
        Byte(self.status.0)
    }

    pub fn set_a(&mut self, v: Byte)
        ensures
            *final(self) == (Registers { a: v, ..*old(self) }),
    {
        self.a = v;
    }

    pub fn set_x(&mut self, v: Byte)
        ensures
            *final(self) == (Registers { x: v, ..*old(self) }),
    {
        self.x = v;
    }

    pub fn set_y(&mut self, v: Byte)
        ensures
            *final(self) == (Registers { y: v, ..*old(self) }),
    {
        self.y = v;
    }

    pub fn set_sp(&mut self, v: Byte)
        ensures
            *final(self) == (Registers { sp: v, ..*old(self) }),
    {
        self.sp = v;
    }

    pub fn set_pc(&mut self, v: Addr)
        ensures
            *final(self) == (Registers { pc: v, ..*old(self) }),
    {
        self.pc = v;
    }

    pub fn set_carry(&mut self, v: bool)
        ensures
            *final(self) == old(self).with_flag(CARRY_BIT, v),
            final(self).flag(CARRY_BIT) == v,
            forall|m: u8| #![auto] m < 8 && m != CARRY_BIT ==> final(self).flag(m) == old(self).flag(m),
    {
        self.set_flag(CARRY_BIT, v);
    }

    pub fn set_zero(&mut self, v: bool)
        ensures
            *final(self) == old(self).with_flag(ZERO_BIT, v),
            final(self).flag(ZERO_BIT) == v,
            forall|m: u8| #![auto] m < 8 && m != ZERO_BIT ==> final(self).flag(m) == old(self).flag(m),
    {
        self.set_flag(ZERO_BIT, v);
    }

    pub fn set_interrupt(&mut self, v: bool)
        ensures
            *final(self) == old(self).with_flag(INTERRUPT_BIT, v),
            final(self).flag(INTERRUPT_BIT) == v,
            forall|m: u8| #![auto] m < 8 && m != INTERRUPT_BIT ==> final(self).flag(m) == old(self).flag(m),
    {
        self.set_flag(INTERRUPT_BIT, v);
    }

    pub fn set_decimal_mode(&mut self, v: bool)
        ensures
            *final(self) == old(self).with_flag(DECIMAL_BIT, v),
            final(self).flag(DECIMAL_BIT) == v,
            forall|m: u8| #![auto] m < 8 && m != DECIMAL_BIT ==> final(self).flag(m) == old(self).flag(m),
    {
        self.set_flag(DECIMAL_BIT, v);
    }

    pub fn set_break_mode(&mut self, v: bool)
        ensures
            *final(self) == old(self).with_flag(BREAK_BIT, v),
            final(self).flag(BREAK_BIT) == v,
            forall|m: u8| #![auto] m < 8 && m != BREAK_BIT ==> final(self).flag(m) == old(self).flag(m),
    {
        self.set_flag(BREAK_BIT, v);
    }

    pub fn set_reserved(&mut self, v: bool)
        ensures
            *final(self) == old(self).with_flag(RESERVED_BIT, v),
            final(self).flag(RESERVED_BIT) == v,
            forall|m: u8| #![auto] m < 8 && m != RESERVED_BIT ==> final(self).flag(m) == old(self).flag(m),
    {
        self.set_flag(RESERVED_BIT, v);
    }

    pub fn set_overflow(&mut self, v: bool)
        ensures
            *final(self) == old(self).with_flag(OVERFLOW_BIT, v),
            final(self).flag(OVERFLOW_BIT) == v,
            forall|m: u8| #![auto] m < 8 && m != OVERFLOW_BIT ==> final(self).flag(m) == old(self).flag(m),
    {
        self.set_flag(OVERFLOW_BIT, v);
    }

    pub fn set_negative(&mut self, v: bool)
        ensures
            *final(self) == old(self).with_flag(NEGATIVE_BIT, v),
            final(self).flag(NEGATIVE_BIT) == v,
            forall|m: u8| #![auto] m < 8 && m != NEGATIVE_BIT ==> final(self).flag(m) == old(self).flag(m),
    {
        self.set_flag(NEGATIVE_BIT, v);
    }

    pub fn set_status(&mut self, v: Byte)
        ensures
            *final(self) == (Registers { status: StatusRegister(v.0), ..*old(self) }),
    {
        self.status = StatusRegister(v.0);
    }

    pub fn inc_sp(&mut self)
        ensures
            *final(self) == (Registers { sp: Byte(((old(self).sp.0 + 1) % 256) as u8), ..*old(self) }),
    {
        self.sp.inc();
    }

    pub fn inc_pc(&mut self)
        ensures
            *final(self) == (Registers { pc: Addr(((old(self).pc.0 + 1) % 0x10000) as u16), ..*old(self) }),
    {
        self.pc.inc();
    }

    pub fn dec_sp(&mut self)
        ensures
            *final(self) == (Registers { sp: Byte(((old(self).sp.0 + 255) % 256) as u8), ..*old(self) }),
    {
        self.sp.dec();
    }

    pub fn dec_pc(&mut self)
        ensures
            *final(self) == (Registers { pc: Addr(((old(self).pc.0 + 0xFFFF) % 0x10000) as u16), ..*old(self) }),
    {
        self.pc.dec();
    }

    pub fn update_negative_by(&mut self, v: Byte)
        ensures
            *final(self) == old(self).with_flag(NEGATIVE_BIT, v.0 >= 0x80),
    {
        self.set_negative(v.is_neg());
    }

    pub fn update_zero_by(&mut self, v: Byte)
        ensures
            *final(self) == old(self).with_flag(ZERO_BIT, v.0 == 0),
    {
        self.set_zero(v.is_clear());
    }

    /// Sets Z and N from `v`, as every load, transfer and ALU result does.
    pub fn update_nz(&mut self, v: Byte)
        ensures
            *final(self) == old(self).with_nz(v.0),
    {
        self.update_zero_by(v);
        self.update_negative_by(v);
    }
}

} // verus!
