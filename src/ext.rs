//! Conversions from `bool` to the width-typed scalars: 1 or 0.
use crate::types::{Addr, Byte, Word};
use vstd::prelude::*;

verus! {

pub trait BoolExt: Sized {
    /// The truth value the conversions encode.
    spec fn truth(&self) -> bool;

    fn as_byte(&self) -> (r: Byte)
        ensures
            r.0 == if self.truth() {
                1u8
            } else {
                0u8
            },
    ;

    fn as_word(&self) -> (r: Word)
        ensures
            r.0 == if self.truth() {
                1u16
            } else {
                0u16
            },
    ;

    fn as_addr(&self) -> (r: Addr)
        ensures
            r.0 == if self.truth() {
                1u16
            } else {
                0u16
            },
    ;

    fn into_byte(self) -> (r: Byte)
        ensures
            r.0 == if self.truth() {
                1u8
            } else {
                0u8
            },
    ;

    fn into_word(self) -> (r: Word)
        ensures
            r.0 == if self.truth() {
                1u16
            } else {
                0u16
            },
    ;

    fn into_addr(self) -> (r: Addr)
        ensures
            r.0 == if self.truth() {
                1u16
            } else {
                0u16
            },
    ;
}

impl BoolExt for bool {
    open spec fn truth(&self) -> bool {
        *self
    }

    fn as_byte(&self) -> (r: Byte) {
        if *self {
            Byte(1)
        } else {
            Byte(0)
        }
    }

    fn as_word(&self) -> (r: Word) {
        if *self {
            Word(1)
        } else {
            Word(0)
        }
    }

    fn as_addr(&self) -> (r: Addr) {
        if *self {
            Addr(1)
        } else {
            Addr(0)
        }
    }

    fn into_byte(self) -> (r: Byte) {
        self.as_byte()
    }

    fn into_word(self) -> (r: Word) {
        self.as_word()
    }

    fn into_addr(self) -> (r: Addr) {
        self.as_addr()
    }
}

} // verus!
