//! Subsets of a few labels held as the bits of a byte.
use vstd::prelude::*;

verus! {

/// Bit `i` of the mask `m` is set.
pub open spec fn bit_set(m: u8, i: int) -> bool {
    m & (1u8 << (i as u8)) != 0
}

/// Number of set bits among bits `0..n` of `m`.
pub open spec fn bits_below(m: u8, n: nat) -> nat
    decreases n,
{
    if n == 0 {
        0
    } else {
        bits_below(m, (n - 1) as nat) + if bit_set(m, n - 1) { 1nat } else { 0nat }
    }
}

/// Number of set bits of `m`.
pub open spec fn popcount(m: u8) -> nat {
    bits_below(m, 8)
}

/// The number of set bits of `m`.
pub fn count_ones(m: u8) -> (count: usize)
    ensures
        count == popcount(m),
{
    let mut count: usize = 0;
    let mut i: u8 = 0;
    while i < 8
        invariant
            i <= 8,
            count == bits_below(m, i as nat),
            count <= i,
        decreases 8 - i,
    {
        if m & (1u8 << i) != 0 {
            count = count + 1;
        }
        i = i + 1;
    }
    count
}

/// The empty mask has no bit set.
pub proof fn lemma_empty_mask()
    ensures
        forall|j: int| 0 <= j < 8 ==> !bit_set(0u8, j),
{
    assert forall|j: int| 0 <= j < 8 implies !bit_set(0u8, j) by {
        let ju: u8 = j as u8;
        assert((0u8 & (1u8 << ju)) == 0) by (bit_vector);
    }
}

/// `mask` with bit `b` also set.
pub fn with_bit(mask: u8, b: u8) -> (out: u8)
    requires
        b < 8,
    ensures
        forall|j: int| 0 <= j < 8 ==> (bit_set(out, j) <==> (bit_set(mask, j) || j == b)),
{
    let out: u8 = mask | (1u8 << b);
    assert forall|j: int| 0 <= j < 8 implies (bit_set(out, j) <==> (bit_set(mask, j) || j == b)) by {
        let ju: u8 = j as u8;
        assert(((mask | (1u8 << b)) & (1u8 << ju)) != 0 <==> ((mask & (1u8 << ju)) != 0 || ju == b))
            by (bit_vector)
            requires
                ju < 8u8,
                b < 8u8,
        ;
    }
    out
}

} // verus!
