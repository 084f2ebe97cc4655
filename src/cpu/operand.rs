//! What an addressing mode hands to an instruction.
use crate::types::{Addr, Byte};
use vstd::prelude::*;

verus! {

#[derive(Clone, Copy, Debug, PartialEq, Eq, Structural)]
pub enum Operand {
    Empty,
    Byte(Byte),
    Addr(Addr),
}

impl Operand {
    pub fn is_none(&self) -> (r: bool)
        ensures
            r == (*self is Empty),
    {
        match self {
            Operand::Empty => true,
            _ => false,
        }
    }

    /// The immediate byte; `requires` rules out the other variants.
    pub fn expect_byte(self, msg: &str) -> (r: Byte)
        requires
            self is Byte,
        ensures
            r == self->Byte_0,
    {
        match self {
            Operand::Byte(v) => v,
            _ => Byte(0),
        }
    }

    /// The effective address; `requires` rules out the other variants.
    pub fn expect_addr(self, msg: &str) -> (r: Addr)
        requires
            self is Addr,
        ensures
            r == self->Addr_0,
    {
        match self {
            Operand::Addr(v) => v,
            _ => Addr(0),
        }
    }

    pub fn expect_none(self, msg: &str)
        requires
            self is Empty,
    {
    }

    pub fn unwrap_none(self)
        requires
            self is Empty,
    {
        self.expect_none("expected no operand")
    }

    pub fn unwrap_byte(self) -> (r: Byte)
        requires
            self is Byte,
        ensures
            r == self->Byte_0,
    {
        self.expect_byte("expected an immediate byte")
    }

    pub fn unwrap_addr(self) -> (r: Addr)
        requires
            self is Addr,
        ensures
            r == self->Addr_0,
    {
        self.expect_addr("expected an address")
    }
}

} // verus!
