//! Single-bit views of packed registers.
use vstd::prelude::*;

verus! {

/// Bit `n` of an 8-bit value.
pub open spec fn bit8(x: u8, n: u8) -> bool {
    (x >> n) & 1 == 1
}

/// Bit `n` of a 16-bit value.
pub open spec fn bit16(x: u16, n: u16) -> bool {
    (x >> n) & 1 == 1
}

/// `x` with bit `n` replaced by `v`.
pub open spec fn with_bit8(x: u8, n: u8, v: bool) -> u8 {
    if v {
        x | (1u8 << n)
    } else {
        x & !(1u8 << n)
    }
}

/// Replacing one bit sets that bit and keeps every other one.
pub proof fn lemma_with_bit8(x: u8, n: u8, v: bool)
    requires
        n < 8,
    ensures
        bit8(with_bit8(x, n, v), n) == v,
        forall|m: u8| #![auto] m < 8 && m != n ==> bit8(with_bit8(x, n, v), m) == bit8(x, m),
{
    if v {
        assert(((x | (1u8 << n)) >> n) & 1 == 1) by (bit_vector)
            requires
                n < 8,
        ;
        assert forall|m: u8| m < 8 && m != n implies ((x | (1u8 << n)) >> m) & 1 == (x >> m)
            & 1 by {
            assert(((x | (1u8 << n)) >> m) & 1 == (x >> m) & 1) by (bit_vector)
                requires
                    n < 8,
                    m < 8,
                    m != n,
            ;
        }
    } else {
        assert(((x & !(1u8 << n)) >> n) & 1 == 0) by (bit_vector)
            requires
                n < 8,
        ;
        assert forall|m: u8| m < 8 && m != n implies ((x & !(1u8 << n)) >> m) & 1 == (x >> m)
            & 1 by {
            assert(((x & !(1u8 << n)) >> m) & 1 == (x >> m) & 1) by (bit_vector)
                requires
                    n < 8,
                    m < 8,
                    m != n,
            ;
        }
    }
}

/// Sets or clears bit `n` of `x`.
pub fn set_bit8(x: u8, n: u8, v: bool) -> (r: u8)
    requires
        n < 8,
    ensures
        r == with_bit8(x, n, v),
        bit8(r, n) == v,
        forall|m: u8| #![auto] m < 8 && m != n ==> bit8(r, m) == bit8(x, m),
{
    proof {
        lemma_with_bit8(x, n, v);
    }
    if v {
        x | (1u8 << n)
    } else {
        x & !(1u8 << n)
    }
}

} // verus!
