//! Exact combinatorics of the rank-recursive constructive solver: the
//! reducing-subspace masks of the quantum Littlewood--Richardson facets, and
//! its path and face counters.
use vstd::prelude::*;
use crate::atlas::plane;
use crate::masks::{bit_set, bits_below, count_ones, popcount};
use crate::text::{list_text, push_list};

verus! {

/// The eigenphase position of chamber coordinate `i`: the chamber order
/// `[m0, m1, m2, -sum]` lists the magic-basis phases `[m1, m0, -sum, m2]`.
pub open spec fn to_eig(i: int) -> int {
    if i == 0 { 1 } else if i == 1 { 0 } else if i == 2 { 3 } else { 2 }
}

/// The eigenphase-order mask of a chamber-order mask.
pub open spec fn eig_mask(mask: u8) -> u8 {
    (if mask & 1 != 0 { 2u8 } else { 0u8 }) | (if mask & 2 != 0 { 1u8 } else { 0u8 })
        | (if mask & 4 != 0 { 8u8 } else { 0u8 }) | (if mask & 8 != 0 { 4u8 } else { 0u8 })
}

/// A chamber-order facet mask moved to eigenphase order: bit `to_eig(i)` of
/// the result is bit `i` of `mask` for `i < 4`; bits 4 and up are dropped.
pub fn qlr_eig_mask(mask: u8) -> (out: u8)
    ensures
        out == eig_mask(mask),
        forall|i: int| 0 <= i < 4 ==> (bit_set(out, to_eig(i)) <==> bit_set(mask, i)),
        forall|j: int| 4 <= j < 8 ==> !bit_set(out, j),
{
    let b0: u8 = if mask & 1 != 0 { 2 } else { 0 };
    let b1: u8 = if mask & 2 != 0 { 1 } else { 0 };
    let b2: u8 = if mask & 4 != 0 { 8 } else { 0 };
    let b3: u8 = if mask & 8 != 0 { 4 } else { 0 };
    let out: u8 = b0 | b1 | b2 | b3;
    proof {
        assert(1u8 << 0u8 == 1u8 && 1u8 << 1u8 == 2u8 && 1u8 << 2u8 == 4u8 && 1u8 << 3u8 == 8u8
            && 1u8 << 4u8 == 16u8 && 1u8 << 5u8 == 32u8 && 1u8 << 6u8 == 64u8
            && 1u8 << 7u8 == 128u8) by (bit_vector);
        assert(out & 16 == 0 && out & 32 == 0 && out & 64 == 0 && out & 128 == 0
            && (out & 1 != 0 <==> mask & 2 != 0) && (out & 2 != 0 <==> mask & 1 != 0)
            && (out & 4 != 0 <==> mask & 8 != 0) && (out & 8 != 0 <==> mask & 4 != 0)) by (bit_vector)
            requires
                out == b0 | b1 | b2 | b3,
                b0 == (if mask & 1 != 0 { 2u8 } else { 0u8 }),
                b1 == (if mask & 2 != 0 { 1u8 } else { 0u8 }),
                b2 == (if mask & 4 != 0 { 8u8 } else { 0u8 }),
                b3 == (if mask & 8 != 0 { 4u8 } else { 0u8 }),
        ;
    }
    out
}

/// Moving a mask to eigenphase order twice gives back its first four
/// labels: the reordering `[1, 0, 3, 2]` is its own inverse.
pub proof fn lemma_eig_mask_involution(mask: u8)
    ensures
        eig_mask(eig_mask(mask)) == mask & 15,
{
    let e = eig_mask(mask);
    assert((if e & 1 != 0 { 2u8 } else { 0u8 }) | (if e & 2 != 0 { 1u8 } else { 0u8 })
        | (if e & 4 != 0 { 8u8 } else { 0u8 }) | (if e & 8 != 0 { 4u8 } else { 0u8 }) == mask & 15) by (bit_vector)
        requires
            e == (if mask & 1 != 0 { 2u8 } else { 0u8 }) | (if mask & 2 != 0 { 1u8 } else { 0u8 })
                | (if mask & 4 != 0 { 8u8 } else { 0u8 }) | (if mask & 8 != 0 { 4u8 } else { 0u8 }),
    ;
}

/// The mask of the labels `0..n`, for a block of at most four labels.
pub open spec fn low_mask(n: nat) -> u8 {
    if n == 0 {
        0
    } else if n == 1 {
        1
    } else if n == 2 {
        3
    } else if n == 3 {
        7
    } else {
        15
    }
}

/// Rows, columns and values each select the same number `k` of labels, with
/// `0 < k < n`: the shape of a reducing subspace of an `n`-block.
pub open spec fn balanced(n: nat, rows: u8, cols: u8, vals: u8) -> bool {
    &&& 0 < popcount(rows) < n
    &&& popcount(cols) == popcount(rows)
    &&& popcount(vals) == popcount(rows)
}

/// The combinatorial gate of a reducing-subspace candidate of an `n`-block:
/// when the three label sets are balanced, the complementary label sets of
/// the second block; `None` otherwise.
pub fn reducing_split(n: usize, rows: u8, cols: u8, vals: u8) -> (split: Option<(u8, u8, u8)>)
    requires
        n <= 4,
    ensures
        split.is_some() <==> balanced(n as nat, rows, cols, vals),
        split.is_some() ==> split.unwrap() == (low_mask(n as nat) ^ rows, low_mask(n as nat) ^ cols, low_mask(n as nat) ^ vals),
{
    let k = count_ones(rows);
    if k == 0 || k >= n || count_ones(cols) != k || count_ones(vals) != k {
        return None;
    }
    proof {
        let nu: u8 = n as u8;
        assert(nu <= 4 ==> (1u8 << nu) >= 1 && ((1u8 << nu) - 1) as u8 == (if nu == 0 { 0u8 } else if nu == 1 { 1u8 } else if nu == 2 { 3u8 } else if nu == 3 { 7u8 } else { 15u8 })) by (bit_vector);
    }
    let all: u8 = (1u8 << (n as u8)) - 1;
    Some((all ^ rows, all ^ cols, all ^ vals))
}

/// Within an `n`-block, complementing a label set twice gives it back, and
/// the complement of a set of `k` labels has `n - k` labels: the second
/// child of a reducing split is an `(n - k)`-block.
pub proof fn lemma_block_complement(n: nat, m: u8)
    requires
        n <= 4,
        m <= low_mask(n),
    ensures
        low_mask(n) ^ (low_mask(n) ^ m) == m,
        (low_mask(n) ^ m) <= low_mask(n),
        popcount(low_mask(n) ^ m) == n - popcount(m),
{
    let all = low_mask(n);
    let c = all ^ m;
    assert(all ^ (all ^ m) == m) by (bit_vector);
    assert((all == 0u8 || all == 1u8 || all == 3u8 || all == 7u8 || all == 15u8) && m <= all ==> c <= all)
        by (bit_vector)
        requires c == all ^ m;
    lemma_complement_bits(n, m, 0);
}

/// Bit `t` of the complement of `m` within an `n`-block is set exactly when
/// `t < n` and bit `t` of `m` is clear; `m` has no bit from `n` on.
proof fn lemma_complement_bit(n: nat, m: u8, t: nat)
    requires
        n <= 4,
        m <= low_mask(n),
        t < 8,
    ensures
        bit_set(low_mask(n) ^ m, t as int) <==> (t < n && !bit_set(m, t as int)),
        t >= n ==> !bit_set(m, t as int),
{
    let all = low_mask(n);
    let tu: u8 = t as u8;
    let nu: u8 = n as u8;
    assert((((all ^ m) & (1u8 << tu)) != 0 <==> (tu < nu && (m & (1u8 << tu)) == 0)) && (tu >= nu ==> (m & (1u8 << tu)) == 0)) by (bit_vector)
        requires
            tu < 8,
            nu <= 4,
            m <= all,
            all == (if nu == 0 { 0u8 } else if nu == 1 { 1u8 } else if nu == 2 { 3u8 } else if nu == 3 { 7u8 } else { 15u8 }),
    ;
}

/// Bits `t..8` of the complement and of `m` add up to the labels `t..n`.
proof fn lemma_complement_bits(n: nat, m: u8, t: nat)
    requires
        n <= 4,
        m <= low_mask(n),
        t <= 8,
    ensures
        (bits_below(low_mask(n) ^ m, 8) - bits_below(low_mask(n) ^ m, t)) + (bits_below(m, 8) - bits_below(m, t))
            == if t <= n { n - t } else { 0 },
    decreases 8 - t,
{
    if t < 8 {
        lemma_complement_bits(n, m, t + 1);
        let c = low_mask(n) ^ m;
        lemma_complement_bit(n, m, t);
        assert(bits_below(c, (t + 1) as nat) == bits_below(c, t) + if bit_set(c, t as int) { 1nat } else { 0nat });
        assert(bits_below(m, (t + 1) as nat) == bits_below(m, t) + if bit_set(m, t as int) { 1nat } else { 0nat });
    }
}

/// The nonempty label sets `x < limit` of `k` labels, in increasing order.
pub open spec fn masks_below(k: nat, limit: nat) -> Seq<u8>
    decreases limit,
{
    if limit <= 1 {
        Seq::empty()
    } else {
        let x = (limit - 1) as u8;
        masks_below(k, (limit - 1) as nat) + if popcount(x) == k { seq![x] } else { Seq::empty() }
    }
}

/// The proper nonempty label sets of `k` labels of an `n`-block, in
/// increasing order of their masks.
pub open spec fn label_sets(n: nat, k: nat) -> Seq<u8> {
    masks_below(k, low_mask(n) as nat)
}

/// The proper nonempty `k`-label sets of an `n`-block, in increasing order.
pub fn label_sets_of(n: usize, k: usize) -> (sets: Vec<u8>)
    requires
        n <= 4,
    ensures
        sets@ == label_sets(n as nat, k as nat),
{
    let all: u8 = if n == 0 { 0 } else if n == 1 { 1 } else if n == 2 { 3 } else if n == 3 { 7 } else { 15 };
    let mut sets: Vec<u8> = Vec::new();
    let mut x: u8 = 1;
    if all == 0 {
        return sets;
    }
    while x < all
        invariant
            1 <= x <= all <= 15,
            all == low_mask(n as nat),
            sets@ == masks_below(k as nat, x as nat),
        decreases all - x,
    {
        if count_ones(x) == k {
            sets.push(x);
        }
        x = x + 1;
    }
    sets
}

/// Candidates `(r, c, v)` for fixed rows `r` and columns `c`, the value
/// sets running over `sets`.
pub open spec fn value_block(r: u8, c: u8, sets: Seq<u8>) -> Seq<(u8, u8, u8)> {
    Seq::new(sets.len(), |i: int| (r, c, sets[i]))
}

/// Candidates with rows `r` and the first `b` column sets.
pub open spec fn column_blocks(r: u8, sets: Seq<u8>, b: nat) -> Seq<(u8, u8, u8)>
    decreases b,
{
    if b == 0 {
        Seq::empty()
    } else {
        column_blocks(r, sets, (b - 1) as nat) + value_block(r, sets[b - 1], sets)
    }
}

/// Candidates with the first `a` row sets.
pub open spec fn row_blocks(sets: Seq<u8>, a: nat) -> Seq<(u8, u8, u8)>
    decreases a,
{
    if a == 0 {
        Seq::empty()
    } else {
        row_blocks(sets, (a - 1) as nat) + column_blocks(sets[a - 1], sets, sets.len())
    }
}

/// Every triple of sets, rows outermost and values innermost.
pub open spec fn triples(sets: Seq<u8>) -> Seq<(u8, u8, u8)> {
    row_blocks(sets, sets.len())
}

/// Appends every triple of `sets`, rows outermost and values innermost.
fn push_triples(out: &mut Vec<(u8, u8, u8)>, sets: &Vec<u8>)
    ensures
        final(out)@ == old(out)@ + triples(sets@),
{
    let ghost start = out@;
    let n = sets.len();
    let mut a: usize = 0;
    while a < n
        invariant
            n == sets@.len(),
            a <= n,
            out@ == start + row_blocks(sets@, a as nat),
        decreases n - a,
    {
        let r = sets[a];
        let ghost before_row = out@;
        let mut b: usize = 0;
        while b < n
            invariant
                n == sets@.len(),
                a < n,
                b <= n,
                r == sets@[a as int],
                out@ == before_row + column_blocks(r, sets@, b as nat),
            decreases n - b,
        {
            let c = sets[b];
            let ghost before_col = out@;
            let mut v: usize = 0;
            while v < n
                invariant
                    n == sets@.len(),
                    v <= n,
                    out@ == before_col + Seq::new(v as nat, |i: int| (r, c, sets@[i])),
                decreases n - v,
            {
                out.push((r, c, sets[v]));
                v = v + 1;
                assert(out@ =~= before_col + Seq::new(v as nat, |i: int| (r, c, sets@[i])));
            }
            b = b + 1;
            assert(out@ =~= before_row + column_blocks(r, sets@, b as nat));
        }
        a = a + 1;
        assert(out@ =~= start + row_blocks(sets@, a as nat));
    }
}

/// The coalesced-strata candidates with blocks of `k, k - 1, .., 1` labels:
/// for each `k`, every triple of `k`-label sets.
pub open spec fn strata(n: nat, k: nat) -> Seq<(u8, u8, u8)>
    decreases k,
{
    if k == 0 {
        Seq::empty()
    } else {
        triples(label_sets(n, k)) + strata(n, (k - 1) as nat)
    }
}

/// The quantum Littlewood--Richardson facet labels of `QH*(Gr(r, 4))`:
/// `(r, rows, cols, vals)` in the chamber order `[m0, m1, m2, -sum]`.
pub open spec fn qlr4_face(i: int) -> (usize, u8, u8, u8) {
    if i == 0 {
        (1usize, 8u8, 8u8, 8u8)
    } else if i == 1 {
        (1usize, 8u8, 4u8, 4u8)
    } else if i == 2 {
        (1usize, 4u8, 8u8, 4u8)
    } else if i == 3 {
        (1usize, 8u8, 2u8, 2u8)
    } else if i == 4 {
        (1usize, 2u8, 8u8, 2u8)
    } else if i == 5 {
        (1usize, 8u8, 1u8, 1u8)
    } else if i == 6 {
        (1usize, 1u8, 8u8, 1u8)
    } else if i == 7 {
        (1usize, 4u8, 4u8, 2u8)
    } else if i == 8 {
        (1usize, 4u8, 2u8, 1u8)
    } else if i == 9 {
        (1usize, 2u8, 4u8, 1u8)
    } else if i == 10 {
        (1usize, 4u8, 1u8, 8u8)
    } else if i == 11 {
        (1usize, 1u8, 4u8, 8u8)
    } else if i == 12 {
        (1usize, 2u8, 2u8, 8u8)
    } else if i == 13 {
        (1usize, 2u8, 1u8, 4u8)
    } else if i == 14 {
        (1usize, 1u8, 2u8, 4u8)
    } else if i == 15 {
        (1usize, 1u8, 1u8, 2u8)
    } else if i == 16 {
        (2usize, 12u8, 12u8, 12u8)
    } else if i == 17 {
        (2usize, 12u8, 10u8, 10u8)
    } else if i == 18 {
        (2usize, 10u8, 12u8, 10u8)
    } else if i == 19 {
        (2usize, 12u8, 6u8, 6u8)
    } else if i == 20 {
        (2usize, 6u8, 12u8, 6u8)
    } else if i == 21 {
        (2usize, 12u8, 9u8, 9u8)
    } else if i == 22 {
        (2usize, 9u8, 12u8, 9u8)
    } else if i == 23 {
        (2usize, 12u8, 5u8, 5u8)
    } else if i == 24 {
        (2usize, 5u8, 12u8, 5u8)
    } else if i == 25 {
        (2usize, 12u8, 3u8, 3u8)
    } else if i == 26 {
        (2usize, 3u8, 12u8, 3u8)
    } else if i == 27 {
        (2usize, 10u8, 10u8, 6u8)
    } else if i == 28 {
        (2usize, 10u8, 10u8, 9u8)
    } else if i == 29 {
        (2usize, 10u8, 6u8, 5u8)
    } else if i == 30 {
        (2usize, 6u8, 10u8, 5u8)
    } else if i == 31 {
        (2usize, 10u8, 9u8, 5u8)
    } else if i == 32 {
        (2usize, 9u8, 10u8, 5u8)
    } else if i == 33 {
        (2usize, 10u8, 5u8, 3u8)
    } else if i == 34 {
        (2usize, 5u8, 10u8, 3u8)
    } else if i == 35 {
        (2usize, 10u8, 5u8, 12u8)
    } else if i == 36 {
        (2usize, 5u8, 10u8, 12u8)
    } else if i == 37 {
        (2usize, 10u8, 3u8, 10u8)
    } else if i == 38 {
        (2usize, 3u8, 10u8, 10u8)
    } else if i == 39 {
        (2usize, 6u8, 6u8, 3u8)
    } else if i == 40 {
        (2usize, 6u8, 9u8, 12u8)
    } else if i == 41 {
        (2usize, 9u8, 6u8, 12u8)
    } else if i == 42 {
        (2usize, 6u8, 5u8, 10u8)
    } else if i == 43 {
        (2usize, 5u8, 6u8, 10u8)
    } else if i == 44 {
        (2usize, 6u8, 3u8, 9u8)
    } else if i == 45 {
        (2usize, 3u8, 6u8, 9u8)
    } else if i == 46 {
        (2usize, 9u8, 9u8, 3u8)
    } else if i == 47 {
        (2usize, 9u8, 5u8, 10u8)
    } else if i == 48 {
        (2usize, 5u8, 9u8, 10u8)
    } else if i == 49 {
        (2usize, 9u8, 3u8, 6u8)
    } else if i == 50 {
        (2usize, 3u8, 9u8, 6u8)
    } else if i == 51 {
        (2usize, 5u8, 5u8, 9u8)
    } else if i == 52 {
        (2usize, 5u8, 5u8, 6u8)
    } else if i == 53 {
        (2usize, 5u8, 3u8, 5u8)
    } else if i == 54 {
        (2usize, 3u8, 5u8, 5u8)
    } else if i == 55 {
        (2usize, 3u8, 3u8, 12u8)
    } else if i == 56 {
        (3usize, 14u8, 14u8, 14u8)
    } else if i == 57 {
        (3usize, 14u8, 13u8, 13u8)
    } else if i == 58 {
        (3usize, 13u8, 14u8, 13u8)
    } else if i == 59 {
        (3usize, 14u8, 11u8, 11u8)
    } else if i == 60 {
        (3usize, 11u8, 14u8, 11u8)
    } else if i == 61 {
        (3usize, 14u8, 7u8, 7u8)
    } else if i == 62 {
        (3usize, 7u8, 14u8, 7u8)
    } else if i == 63 {
        (3usize, 13u8, 13u8, 11u8)
    } else if i == 64 {
        (3usize, 13u8, 11u8, 7u8)
    } else if i == 65 {
        (3usize, 11u8, 13u8, 7u8)
    } else if i == 66 {
        (3usize, 13u8, 7u8, 14u8)
    } else if i == 67 {
        (3usize, 7u8, 13u8, 14u8)
    } else if i == 68 {
        (3usize, 11u8, 11u8, 14u8)
    } else if i == 69 {
        (3usize, 11u8, 7u8, 13u8)
    } else if i == 70 {
        (3usize, 7u8, 11u8, 13u8)
    } else {
        (3usize, 7u8, 7u8, 11u8)
    }
}

/// The facet table as a sequence.
pub open spec fn qlr4_faces() -> Seq<(usize, u8, u8, u8)> {
    Seq::new(72, |i: int| qlr4_face(i))
}

/// The facet table.
fn qlr4_face_table() -> (faces: Vec<(usize, u8, u8, u8)>)
    ensures
        faces@ == qlr4_faces(),
{
    let faces: Vec<(usize, u8, u8, u8)> = vec![
        (1, 8, 8, 8), (1, 8, 4, 4), (1, 4, 8, 4), (1, 8, 2, 2),
        (1, 2, 8, 2), (1, 8, 1, 1), (1, 1, 8, 1), (1, 4, 4, 2),
        (1, 4, 2, 1), (1, 2, 4, 1), (1, 4, 1, 8), (1, 1, 4, 8),
        (1, 2, 2, 8), (1, 2, 1, 4), (1, 1, 2, 4), (1, 1, 1, 2),
        (2, 12, 12, 12), (2, 12, 10, 10), (2, 10, 12, 10), (2, 12, 6, 6),
        (2, 6, 12, 6), (2, 12, 9, 9), (2, 9, 12, 9), (2, 12, 5, 5),
        (2, 5, 12, 5), (2, 12, 3, 3), (2, 3, 12, 3), (2, 10, 10, 6),
        (2, 10, 10, 9), (2, 10, 6, 5), (2, 6, 10, 5), (2, 10, 9, 5),
        (2, 9, 10, 5), (2, 10, 5, 3), (2, 5, 10, 3), (2, 10, 5, 12),
        (2, 5, 10, 12), (2, 10, 3, 10), (2, 3, 10, 10), (2, 6, 6, 3),
        (2, 6, 9, 12), (2, 9, 6, 12), (2, 6, 5, 10), (2, 5, 6, 10),
        (2, 6, 3, 9), (2, 3, 6, 9), (2, 9, 9, 3), (2, 9, 5, 10),
        (2, 5, 9, 10), (2, 9, 3, 6), (2, 3, 9, 6), (2, 5, 5, 9),
        (2, 5, 5, 6), (2, 5, 3, 5), (2, 3, 5, 5), (2, 3, 3, 12),
        (3, 14, 14, 14), (3, 14, 13, 13), (3, 13, 14, 13), (3, 14, 11, 11),
        (3, 11, 14, 11), (3, 14, 7, 7), (3, 7, 14, 7), (3, 13, 13, 11),
        (3, 13, 11, 7), (3, 11, 13, 7), (3, 13, 7, 14), (3, 7, 13, 14),
        (3, 11, 11, 14), (3, 11, 7, 13), (3, 7, 11, 13), (3, 7, 7, 11),
    ];
    assert(faces@ =~= qlr4_faces());
    faces
}

/// A facet's labels in eigenphase order; a rank-three facet is read through
/// its complementary rank-one facet.
pub open spec fn facet_labels(face: (usize, u8, u8, u8)) -> (u8, u8, u8) {
    let (rank, r, c, v) = face;
    if rank == 3 {
        (eig_mask(15u8 ^ r), eig_mask(15u8 ^ c), eig_mask(15u8 ^ v))
    } else {
        (eig_mask(r), eig_mask(c), eig_mask(v))
    }
}

/// The labels of the first `i` facets whose row set has `k` labels, in
/// table order.
pub open spec fn facets_of_size(faces: Seq<(usize, u8, u8, u8)>, k: nat, i: nat) -> Seq<(u8, u8, u8)>
    decreases i,
{
    if i == 0 {
        Seq::empty()
    } else {
        let t = facet_labels(faces[i - 1]);
        facets_of_size(faces, k, (i - 1) as nat) + if popcount(t.0) == k { seq![t] } else { Seq::empty() }
    }
}

/// The regular rank-four scan: the balanced `2 + 2` facets first, then the
/// `1 + 3` ones.
pub open spec fn qlr_schedule() -> Seq<(u8, u8, u8)> {
    facets_of_size(qlr4_faces(), 2, 72) + facets_of_size(qlr4_faces(), 1, 72)
}

/// The reducing-subspace candidates `(rows, cols, vals)` the rank-recursive
/// solver tries on an `n`-block, in order: on a multiplicity stratum every
/// balanced triple, larger blocks first; on a regular rank-four block the
/// facets; on a regular rank-three block the 27 rank-one labels.
pub open spec fn reducing_schedule(n: nat, repeated: bool) -> Seq<(u8, u8, u8)> {
    if repeated {
        strata(n, n / 2)
    } else if n == 4 {
        qlr_schedule()
    } else {
        triples(seq![1u8, 2u8, 4u8])
    }
}

/// Appends the facets of the table whose eigenphase row set has `k` labels.
fn push_facets(out: &mut Vec<(u8, u8, u8)>, faces: &Vec<(usize, u8, u8, u8)>, k: usize)
    ensures
        final(out)@ == old(out)@ + facets_of_size(faces@, k as nat, faces@.len()),
{
    let ghost start = out@;
    let mut i: usize = 0;
    while i < faces.len()
        invariant
            i <= faces@.len(),
            out@ == start + facets_of_size(faces@, k as nat, i as nat),
        decreases faces@.len() - i,
    {
        let (rank, r0, c0, v0) = faces[i];
        let (r1, c1, v1) = if rank == 3 { (15u8 ^ r0, 15u8 ^ c0, 15u8 ^ v0) } else { (r0, c0, v0) };
        let rows = qlr_eig_mask(r1);
        let cols = qlr_eig_mask(c1);
        let vals = qlr_eig_mask(v1);
        if count_ones(rows) == k {
            out.push((rows, cols, vals));
        }
        i = i + 1;
        assert(out@ =~= start + facets_of_size(faces@, k as nat, i as nat));
    }
}

/// The reducing-subspace candidates of an `n`-block, `3 <= n <= 4`, in the
/// order the rank-recursive solver tries them; `repeated` says whether the
/// block lies on a multiplicity stratum.
pub fn reducing_candidates(n: usize, repeated: bool) -> (candidates: Vec<(u8, u8, u8)>)
    requires
        3 <= n <= 4,
    ensures
        candidates@ == reducing_schedule(n as nat, repeated),
        n == 4 && !repeated ==> candidates@ == Seq::new(72, |j: int| facet_reading(qlr4_face(j))).filter(|t: (u8, u8, u8)| popcount(t.0) == 2)
            + Seq::new(72, |j: int| facet_reading(qlr4_face(j))).filter(|t: (u8, u8, u8)| popcount(t.0) == 1),
{
    proof {
        lemma_rank_four_candidates_are_facets();
    }
    let mut candidates: Vec<(u8, u8, u8)> = Vec::new();
    if repeated {
        let mut k: usize = n / 2;
        while k > 0
            invariant
                3 <= n <= 4,
                k <= n / 2,
                strata(n as nat, (n / 2) as nat) == candidates@ + strata(n as nat, k as nat),
            decreases k,
        {
            let sets = label_sets_of(n, k);
            push_triples(&mut candidates, &sets);
            k = k - 1;
        }
        assert(candidates@ =~= strata(n as nat, (n / 2) as nat));
    } else if n == 4 {
        let faces = qlr4_face_table();
        push_facets(&mut candidates, &faces, 2);
        push_facets(&mut candidates, &faces, 1);
    } else {
        let sets: Vec<u8> = vec![1, 2, 4];
        assert(sets@ =~= seq![1u8, 2u8, 4u8]);
        push_triples(&mut candidates, &sets);
    }
    candidates
}

/// Every set listed below `limit` has `k` labels and a mask in `1..limit`.
proof fn lemma_masks_below(k: nat, limit: nat)
    requires
        limit <= 256,
    ensures
        forall|i: int| 0 <= i < masks_below(k, limit).len() ==> {
            let x = #[trigger] masks_below(k, limit)[i];
            popcount(x) == k && 1 <= x < limit
        },
    decreases limit,
{
    if limit > 1 {
        lemma_masks_below(k, (limit - 1) as nat);
        let prev = masks_below(k, (limit - 1) as nat);
        let x = (limit - 1) as u8;
        assert forall|i: int| 0 <= i < masks_below(k, limit).len() implies {
            let y = #[trigger] masks_below(k, limit)[i];
            popcount(y) == k && 1 <= y < limit
        } by {
            if i < prev.len() {
                assert(masks_below(k, limit)[i] == prev[i]);
            } else {
                assert(masks_below(k, limit)[i] == x);
            }
        }
    }
}

/// Every triple of sets of `k` labels is made of sets of `k` labels.
proof fn lemma_triples_sizes(sets: Seq<u8>, k: nat)
    requires
        forall|i: int| 0 <= i < sets.len() ==> popcount(#[trigger] sets[i]) == k,
    ensures
        forall|i: int| 0 <= i < triples(sets).len() ==> {
            let t = #[trigger] triples(sets)[i];
            popcount(t.0) == k && popcount(t.1) == k && popcount(t.2) == k
        },
{
    lemma_row_blocks_sizes(sets, k, sets.len());
}

proof fn lemma_row_blocks_sizes(sets: Seq<u8>, k: nat, a: nat)
    requires
        a <= sets.len(),
        forall|i: int| 0 <= i < sets.len() ==> popcount(#[trigger] sets[i]) == k,
    ensures
        forall|i: int| 0 <= i < row_blocks(sets, a).len() ==> {
            let t = #[trigger] row_blocks(sets, a)[i];
            popcount(t.0) == k && popcount(t.1) == k && popcount(t.2) == k
        },
    decreases a,
{
    if a > 0 {
        lemma_row_blocks_sizes(sets, k, (a - 1) as nat);
        lemma_column_blocks_sizes(sets[a - 1], sets, k, sets.len());
        let prev = row_blocks(sets, (a - 1) as nat);
        let block = column_blocks(sets[a - 1], sets, sets.len());
        assert forall|i: int| 0 <= i < row_blocks(sets, a).len() implies {
            let t = #[trigger] row_blocks(sets, a)[i];
            popcount(t.0) == k && popcount(t.1) == k && popcount(t.2) == k
        } by {
            if i >= prev.len() {
                assert(row_blocks(sets, a)[i] == block[i - prev.len()]);
            } else {
                assert(row_blocks(sets, a)[i] == prev[i]);
            }
        }
    }
}

proof fn lemma_column_blocks_sizes(r: u8, sets: Seq<u8>, k: nat, b: nat)
    requires
        b <= sets.len(),
        popcount(r) == k,
        forall|i: int| 0 <= i < sets.len() ==> popcount(#[trigger] sets[i]) == k,
    ensures
        forall|i: int| 0 <= i < column_blocks(r, sets, b).len() ==> {
            let t = #[trigger] column_blocks(r, sets, b)[i];
            popcount(t.0) == k && popcount(t.1) == k && popcount(t.2) == k
        },
    decreases b,
{
    if b > 0 {
        lemma_column_blocks_sizes(r, sets, k, (b - 1) as nat);
        let prev = column_blocks(r, sets, (b - 1) as nat);
        let block = value_block(r, sets[b - 1], sets);
        assert forall|i: int| 0 <= i < column_blocks(r, sets, b).len() implies {
            let t = #[trigger] column_blocks(r, sets, b)[i];
            popcount(t.0) == k && popcount(t.1) == k && popcount(t.2) == k
        } by {
            if i >= prev.len() {
                assert(column_blocks(r, sets, b)[i] == block[i - prev.len()]);
            } else {
                assert(column_blocks(r, sets, b)[i] == prev[i]);
            }
        }
    }
}

/// The strata candidates with blocks of at most `k` labels are balanced
/// triples of blocks of `1..=k` labels.
proof fn lemma_strata_sizes(n: nat, k: nat)
    ensures
        forall|i: int| 0 <= i < strata(n, k).len() ==> {
            let t = #[trigger] strata(n, k)[i];
            1 <= popcount(t.0) <= k && popcount(t.1) == popcount(t.0) && popcount(t.2) == popcount(t.0)
        },
    decreases k,
{
    if k > 0 {
        lemma_strata_sizes(n, (k - 1) as nat);
        let sets = label_sets(n, k);
        lemma_masks_below(k, low_mask(n) as nat);
        lemma_triples_sizes(sets, k);
        let head = triples(sets);
        let tail = strata(n, (k - 1) as nat);
        assert forall|i: int| 0 <= i < strata(n, k).len() implies {
            let t = #[trigger] strata(n, k)[i];
            1 <= popcount(t.0) <= k && popcount(t.1) == popcount(t.0) && popcount(t.2) == popcount(t.0)
        } by {
            if i >= head.len() {
                assert(strata(n, k)[i] == tail[i - head.len()]);
            } else {
                assert(strata(n, k)[i] == head[i]);
            }
        }
    }
}

/// Facet `i` of the table reads, in eigenphase order, as a balanced triple
/// of one or two labels.
pub open spec fn facet_is_balanced(i: int) -> bool {
    let t = facet_labels(qlr4_faces()[i]);
    &&& 1 <= popcount(t.0) <= 2
    &&& popcount(t.1) == popcount(t.0)
    &&& popcount(t.2) == popcount(t.0)
}

/// On masks of at most four labels, the size, the eigenphase reordering
/// and the complement are plain arithmetic on the binary digits.
proof fn lemma_small_masks()
    ensures
        forall|x: u8| x <= 15 ==> #[trigger] popcount(x) == x % 2 + (x / 2) % 2 + (x / 4) % 2 + (x / 8) % 2,
        forall|x: u8| x <= 15 ==> #[trigger] eig_mask(x) == 2 * (x % 2) + (x / 2) % 2 + 8 * ((x / 4) % 2) + 4 * ((x / 8) % 2),
        forall|x: u8| x <= 15 ==> #[trigger] (15u8 ^ x) == 15 - x,
{
    assert forall|x: u8| x <= 15 implies #[trigger] popcount(x) == x % 2 + (x / 2) % 2 + (x / 4) % 2 + (x / 8) % 2 by {
        reveal_with_fuel(bits_below, 9);
        assert(x <= 15 ==> (((x & (1u8 << 0u8)) != 0) == (x % 2 == 1)
            && ((x & (1u8 << 1u8)) != 0) == ((x / 2) % 2 == 1)
            && ((x & (1u8 << 2u8)) != 0) == ((x / 4) % 2 == 1)
            && ((x & (1u8 << 3u8)) != 0) == ((x / 8) % 2 == 1)
            && (x & (1u8 << 4u8)) == 0 && (x & (1u8 << 5u8)) == 0
            && (x & (1u8 << 6u8)) == 0 && (x & (1u8 << 7u8)) == 0)) by (bit_vector);
    }
    assert forall|x: u8| x <= 15 implies #[trigger] eig_mask(x) == 2 * (x % 2) + (x / 2) % 2 + 8 * ((x / 4) % 2) + 4 * ((x / 8) % 2) by {
        assert(x <= 15 ==> (if x & 1 != 0 { 2u8 } else { 0u8 }) | (if x & 2 != 0 { 1u8 } else { 0u8 })
            | (if x & 4 != 0 { 8u8 } else { 0u8 }) | (if x & 8 != 0 { 4u8 } else { 0u8 })
            == 2 * (x % 2) + (x / 2) % 2 + 8 * ((x / 4) % 2) + 4 * ((x / 8) % 2)) by (bit_vector);
    }
    assert forall|x: u8| x <= 15 implies #[trigger] (15u8 ^ x) == 15 - x by {
        assert(x <= 15 ==> (15u8 ^ x) == 15 - x) by (bit_vector);
    }
}

/// The rank-one facets are balanced in eigenphase order.
#[verifier::spinoff_prover]
#[verifier::rlimit(40)]
proof fn lemma_rank_one_facets()
    ensures
        forall|j: int| 0 <= j < 16 ==> #[trigger] facet_is_balanced(j),
{
    lemma_small_masks();
    assert forall|j: int| 0 <= j < 16 implies #[trigger] facet_is_balanced(j) by {
        if j == 0 {
        } else if j == 1 {
        } else if j == 2 {
        } else if j == 3 {
        } else if j == 4 {
        } else if j == 5 {
        } else if j == 6 {
        } else if j == 7 {
        } else if j == 8 {
        } else if j == 9 {
        } else if j == 10 {
        } else if j == 11 {
        } else if j == 12 {
        } else if j == 13 {
        } else if j == 14 {
        } else {
        }
    }
}

/// The first rank-two facets are balanced in eigenphase order.
#[verifier::spinoff_prover]
#[verifier::rlimit(40)]
proof fn lemma_rank_two_facets_head()
    ensures
        forall|j: int| 16 <= j < 36 ==> #[trigger] facet_is_balanced(j),
{
    lemma_small_masks();
    assert forall|j: int| 16 <= j < 36 implies #[trigger] facet_is_balanced(j) by {
        if j == 16 {
        } else if j == 17 {
        } else if j == 18 {
        } else if j == 19 {
        } else if j == 20 {
        } else if j == 21 {
        } else if j == 22 {
        } else if j == 23 {
        } else if j == 24 {
        } else if j == 25 {
        } else if j == 26 {
        } else if j == 27 {
        } else if j == 28 {
        } else if j == 29 {
        } else if j == 30 {
        } else if j == 31 {
        } else if j == 32 {
        } else if j == 33 {
        } else if j == 34 {
        } else {
        }
    }
}

/// The remaining rank-two facets are balanced in eigenphase order.
#[verifier::spinoff_prover]
#[verifier::rlimit(40)]
proof fn lemma_rank_two_facets_tail()
    ensures
        forall|j: int| 36 <= j < 56 ==> #[trigger] facet_is_balanced(j),
{
    lemma_small_masks();
    assert forall|j: int| 36 <= j < 56 implies #[trigger] facet_is_balanced(j) by {
        if j == 36 {
        } else if j == 37 {
        } else if j == 38 {
        } else if j == 39 {
        } else if j == 40 {
        } else if j == 41 {
        } else if j == 42 {
        } else if j == 43 {
        } else if j == 44 {
        } else if j == 45 {
        } else if j == 46 {
        } else if j == 47 {
        } else if j == 48 {
        } else if j == 49 {
        } else if j == 50 {
        } else if j == 51 {
        } else if j == 52 {
        } else if j == 53 {
        } else if j == 54 {
        } else {
        }
    }
}

/// The rank-three facets, read through their complements, are balanced.
#[verifier::spinoff_prover]
#[verifier::rlimit(40)]
proof fn lemma_rank_three_facets()
    ensures
        forall|j: int| 56 <= j < 72 ==> #[trigger] facet_is_balanced(j),
{
    lemma_small_masks();
    assert forall|j: int| 56 <= j < 72 implies #[trigger] facet_is_balanced(j) by {
        if j == 56 {
        } else if j == 57 {
        } else if j == 58 {
        } else if j == 59 {
        } else if j == 60 {
        } else if j == 61 {
        } else if j == 62 {
        } else if j == 63 {
        } else if j == 64 {
        } else if j == 65 {
        } else if j == 66 {
        } else if j == 67 {
        } else if j == 68 {
        } else if j == 69 {
        } else if j == 70 {
        } else {
        }
    }
}

/// Every facet of the table is balanced in eigenphase order.
proof fn lemma_facets_balanced()
    ensures
        forall|j: int| 0 <= j < 72 ==> #[trigger] facet_is_balanced(j),
{
    lemma_rank_one_facets();
    lemma_rank_two_facets_head();
    lemma_rank_two_facets_tail();
    lemma_rank_three_facets();
}

proof fn lemma_facets_of_size(faces: Seq<(usize, u8, u8, u8)>, k: nat, i: nat)
    requires
        faces == qlr4_faces(),
        i <= 72,
        forall|j: int| 0 <= j < 72 ==> #[trigger] facet_is_balanced(j),
    ensures
        forall|m: int| 0 <= m < facets_of_size(faces, k, i).len() ==> {
            let t = #[trigger] facets_of_size(faces, k, i)[m];
            1 <= popcount(t.0) <= 2 && popcount(t.1) == popcount(t.0) && popcount(t.2) == popcount(t.0)
        },
    decreases i,
{
    if i > 0 {
        lemma_facets_of_size(faces, k, (i - 1) as nat);
        assert(facet_is_balanced(i - 1));
        let prev = facets_of_size(faces, k, (i - 1) as nat);
        let t = facet_labels(faces[i - 1]);
        assert forall|m: int| 0 <= m < facets_of_size(faces, k, i).len() implies {
            let u = #[trigger] facets_of_size(faces, k, i)[m];
            1 <= popcount(u.0) <= 2 && popcount(u.1) == popcount(u.0) && popcount(u.2) == popcount(u.0)
        } by {
            if m < prev.len() {
                assert(facets_of_size(faces, k, i)[m] == prev[m]);
            } else {
                assert(facets_of_size(faces, k, i)[m] == t);
            }
        }
    }
}

/// The eigenphase reading of a facet of the table: its rows, cols and vals
/// masks, in that order, moved to eigenphase order, a rank-three facet read
/// through the complements of its masks.
pub open spec fn facet_reading(face: (usize, u8, u8, u8)) -> (u8, u8, u8) {
    let (rank, r, c, v) = face;
    let (r1, c1, v1) = if rank == 3 { (15u8 ^ r, 15u8 ^ c, 15u8 ^ v) } else { (r, c, v) };
    (eig_mask(r1), eig_mask(c1), eig_mask(v1))
}

/// Every facet listed with `k` row labels among the first `i` is the
/// reading of one of those facets and has `k` row labels, and every such
/// facet's reading with `k` row labels is listed.
proof fn lemma_facets_of_size_are_readings(faces: Seq<(usize, u8, u8, u8)>, k: nat, i: nat)
    requires
        i <= faces.len(),
    ensures
        forall|a: int| 0 <= a < facets_of_size(faces, k, i).len() ==> exists|j: int| 0 <= j < i
            && #[trigger] facets_of_size(faces, k, i)[a] == facet_reading(faces[j]),
        forall|a: int| 0 <= a < facets_of_size(faces, k, i).len() ==> popcount(#[trigger] facets_of_size(faces, k, i)[a].0) == k,
        forall|j: int| 0 <= j < i && popcount(facet_reading(faces[j]).0) == k ==> facets_of_size(faces, k, i).contains(#[trigger] facet_reading(faces[j])),
    decreases i,
{
    if i > 0 {
        lemma_facets_of_size_are_readings(faces, k, (i - 1) as nat);
        let prev = facets_of_size(faces, k, (i - 1) as nat);
        let now = facets_of_size(faces, k, i);
        assert(facet_labels(faces[i - 1]) == facet_reading(faces[i - 1]));
        assert forall|a: int| 0 <= a < now.len() implies exists|j: int| 0 <= j < i && #[trigger] now[a] == facet_reading(faces[j]) by {
            if a < prev.len() {
                assert(now[a] == prev[a]);
                let j = choose|j: int| 0 <= j < i - 1 && #[trigger] prev[a] == facet_reading(faces[j]);
            } else {
                assert(now[a] == facet_reading(faces[i - 1]));
            }
        }
        assert forall|a: int| 0 <= a < now.len() implies popcount(#[trigger] now[a].0) == k by {
            if a < prev.len() {
                assert(now[a] == prev[a]);
            }
        }
        assert forall|j: int| 0 <= j < i && popcount(facet_reading(faces[j]).0) == k implies now.contains(#[trigger] facet_reading(faces[j])) by {
            if j < i - 1 {
                let a = choose|a: int| 0 <= a < prev.len() && prev[a] == facet_reading(faces[j]);
                assert(now[a] == prev[a]);
            } else {
                assert(now[prev.len() as int] == facet_reading(faces[j]));
            }
        }
    }
}

/// The facets listed with `k` row labels among the first `i` are the
/// readings of those facets, in table order, that have `k` row labels.
proof fn lemma_facets_of_size_filter(faces: Seq<(usize, u8, u8, u8)>, k: nat, i: nat)
    requires
        i <= faces.len(),
    ensures
        facets_of_size(faces, k, i) == Seq::new(i, |j: int| facet_reading(faces[j])).filter(|t: (u8, u8, u8)| popcount(t.0) == k),
    decreases i,
{
    reveal(Seq::filter);
    if i > 0 {
        lemma_facets_of_size_filter(faces, k, (i - 1) as nat);
        let all = Seq::new(i, |j: int| facet_reading(faces[j]));
        assert(all.drop_last() =~= Seq::new((i - 1) as nat, |j: int| facet_reading(faces[j])));
        assert(facet_labels(faces[i - 1]) == facet_reading(faces[i - 1]));
        assert(facets_of_size(faces, k, i) =~= all.filter(|t: (u8, u8, u8)| popcount(t.0) == k));
    }
}

/// A schedule entry is the reading of a facet of the table.
pub open spec fn reads_a_facet(t: (u8, u8, u8)) -> bool {
    exists|j: int| 0 <= j < 72 && t == #[trigger] facet_reading(qlr4_face(j))
}

/// The regular rank-four candidates are exactly the QLR facets of the table
/// `qlr4_face`, each read in eigenphase order with its rows, cols and vals
/// in that order: every candidate is the reading of a facet, every facet's
/// reading is a candidate, and the facets with two row labels come before
/// those with one.
pub proof fn lemma_rank_four_candidates_are_facets()
    ensures
        forall|i: int| 0 <= i < reducing_schedule(4, false).len() ==> #[trigger] reads_a_facet(reducing_schedule(4, false)[i]),
        forall|j: int| 0 <= j < 72 ==> reducing_schedule(4, false).contains(#[trigger] facet_reading(qlr4_face(j))),
        forall|i: int, l: int| 0 <= i < l < reducing_schedule(4, false).len()
            ==> popcount(#[trigger] reducing_schedule(4, false)[i].0) >= popcount(#[trigger] reducing_schedule(4, false)[l].0),
        reducing_schedule(4, false) == Seq::new(72, |j: int| facet_reading(qlr4_face(j))).filter(|t: (u8, u8, u8)| popcount(t.0) == 2)
            + Seq::new(72, |j: int| facet_reading(qlr4_face(j))).filter(|t: (u8, u8, u8)| popcount(t.0) == 1),
{
    let faces = qlr4_faces();
    lemma_facets_of_size_filter(faces, 2, 72);
    lemma_facets_of_size_filter(faces, 1, 72);
    assert(Seq::new(72, |j: int| facet_reading(faces[j])) =~= Seq::new(72, |j: int| facet_reading(qlr4_face(j))));
    let a = facets_of_size(faces, 2, 72);
    let b = facets_of_size(faces, 1, 72);
    assert(reducing_schedule(4, false) == a + b);
    lemma_facets_of_size_are_readings(faces, 2, 72);
    lemma_facets_of_size_are_readings(faces, 1, 72);
    lemma_facets_balanced();
    assert forall|i: int| 0 <= i < reducing_schedule(4, false).len() implies #[trigger] reads_a_facet(reducing_schedule(4, false)[i]) by {
        if i < a.len() {
            assert(reducing_schedule(4, false)[i] == a[i]);
            let j = choose|j: int| 0 <= j < 72 && #[trigger] a[i] == facet_reading(faces[j]);
            assert(faces[j] == qlr4_face(j));
        } else {
            assert(reducing_schedule(4, false)[i] == b[i - a.len()]);
            let j = choose|j: int| 0 <= j < 72 && #[trigger] b[i - a.len()] == facet_reading(faces[j]);
            assert(faces[j] == qlr4_face(j));
        }
    }
    assert forall|j: int| 0 <= j < 72 implies reducing_schedule(4, false).contains(#[trigger] facet_reading(qlr4_face(j))) by {
        assert(facet_is_balanced(j));
        assert(faces[j] == qlr4_face(j));
        assert(facet_labels(faces[j]) == facet_reading(faces[j]));
        if popcount(facet_reading(faces[j]).0) == 2 {
            assert(a.contains(facet_reading(faces[j])));
            let x = choose|x: int| 0 <= x < a.len() && a[x] == facet_reading(faces[j]);
            assert(reducing_schedule(4, false)[x] == a[x]);
        } else {
            assert(b.contains(facet_reading(faces[j])));
            let x = choose|x: int| 0 <= x < b.len() && b[x] == facet_reading(faces[j]);
            assert(reducing_schedule(4, false)[a.len() + x] == b[x]);
        }
    }
    assert forall|i: int, l: int| 0 <= i < l < reducing_schedule(4, false).len()
        implies popcount(#[trigger] reducing_schedule(4, false)[i].0) >= popcount(#[trigger] reducing_schedule(4, false)[l].0) by {
        if i < a.len() {
            assert(reducing_schedule(4, false)[i] == a[i]);
        } else {
            assert(reducing_schedule(4, false)[i] == b[i - a.len()]);
        }
        if l < a.len() {
            assert(reducing_schedule(4, false)[l] == a[l]);
        } else {
            assert(reducing_schedule(4, false)[l] == b[l - a.len()]);
        }
    }
}

/// Every reducing-subspace candidate the solver schedules passes the
/// reducing-split gate: its three label sets have a common size `k` with
/// `0 < k < n`, so both children are smaller blocks.
pub proof fn lemma_candidates_balanced(n: nat, repeated: bool)
    requires
        3 <= n <= 4,
    ensures
        forall|i: int| 0 <= i < reducing_schedule(n, repeated).len() ==> {
            let t = #[trigger] reducing_schedule(n, repeated)[i];
            balanced(n, t.0, t.1, t.2)
        },
{
    if repeated {
        lemma_strata_sizes(n, n / 2);
    } else if n == 4 {
        lemma_facets_balanced();
        lemma_facets_of_size(qlr4_faces(), 2, 72);
        lemma_facets_of_size(qlr4_faces(), 1, 72);
        let a = facets_of_size(qlr4_faces(), 2, 72);
        let b = facets_of_size(qlr4_faces(), 1, 72);
        assert forall|i: int| 0 <= i < reducing_schedule(n, repeated).len() implies {
            let t = #[trigger] reducing_schedule(n, repeated)[i];
            balanced(n, t.0, t.1, t.2)
        } by {
            if i >= a.len() {
                assert(reducing_schedule(n, repeated)[i] == b[i - a.len()]);
            } else {
                assert(reducing_schedule(n, repeated)[i] == a[i]);
            }
        }
    } else {
        let sets = seq![1u8, 2u8, 4u8];
        lemma_small_masks();
        assert(popcount(1u8) == 1 && popcount(2u8) == 1 && popcount(4u8) == 1);
        assert(forall|i: int| 0 <= i < sets.len() ==> popcount(#[trigger] sets[i]) == 1);
        lemma_triples_sizes(sets, 1);
    }
}

/// The index of the Givens plane `{x, y}` among the six planes, with the
/// orientation `+1` when `x < y` and `-1` when `x > y`; `None` when `x == y`
/// or a label is not below four.
pub fn pair_index_sign(x: usize, y: usize) -> (indexed: Option<(usize, i8)>)
    ensures
        indexed.is_some() <==> (x != y && x < 4 && y < 4),
        indexed.is_some() ==> {
            let (k, sign) = indexed.unwrap();
            &&& k < 6
            &&& plane(k as int) == (if x < y { (x, y) } else { (y, x) })
            &&& sign == (if x < y { 1i8 } else { -1i8 })
        },
{
    if x == y {
        return None;
    }
    let (lo, hi, sign): (usize, usize, i8) = if x < y { (x, y, 1) } else { (y, x, -1) };
    let k: usize = if lo == 0 && hi == 1 {
        0
    } else if lo == 0 && hi == 2 {
        1
    } else if lo == 0 && hi == 3 {
        2
    } else if lo == 1 && hi == 2 {
        3
    } else if lo == 1 && hi == 3 {
        4
    } else if lo == 2 && hi == 3 {
        5
    } else {
        return None;
    };
    Some((k, sign))
}

/// The six planes are distinct increasing pairs of labels below four, so the
/// index `pair_index_sign` gives for a plane's two labels is that plane's
/// position, whichever order the labels come in.
pub proof fn lemma_pair_index_inverts_plane(k: int)
    requires
        0 <= k < 6,
    ensures
        plane(k).0 < plane(k).1 < 4,
        forall|j: int| 0 <= j < 6 && plane(j) == plane(k) ==> j == k,
{
}

/// The positions `i < n` whose bit is set in `mask`, in increasing order.
pub open spec fn mask_positions_spec(mask: u8, n: nat) -> Seq<usize>
    decreases n,
{
    if n == 0 {
        Seq::empty()
    } else if bit_set(mask, n - 1) {
        mask_positions_spec(mask, (n - 1) as nat).push((n - 1) as usize)
    } else {
        mask_positions_spec(mask, (n - 1) as nat)
    }
}

/// The selected positions of an `n`-block, in increasing order: the
/// entries a block restriction keeps, and the rows and columns a reduced
/// block is embedded at.
pub fn mask_positions(mask: u8, n: usize) -> (positions: Vec<usize>)
    requires
        n <= 8,
    ensures
        positions@ == mask_positions_spec(mask, n as nat),
{
    let mut positions: Vec<usize> = Vec::new();
    let mut i: usize = 0;
    while i < n
        invariant
            i <= n <= 8,
            positions@ == mask_positions_spec(mask, i as nat),
        decreases n - i,
    {
        if mask & (1u8 << (i as u8)) != 0 {
            positions.push(i);
        }
        i = i + 1;
    }
    positions
}

/// The positions below `k` listed for `mask` are exactly its set bits below
/// `k`, and there are as many as those bits.
proof fn lemma_mask_positions_members(mask: u8, k: nat)
    requires
        k <= 8,
    ensures
        mask_positions_spec(mask, k).len() == bits_below(mask, k),
        forall|i: usize| i < 8 ==> (#[trigger] mask_positions_spec(mask, k).contains(i) <==> (i < k && bit_set(mask, i as int))),
    decreases k,
{
    if k > 0 {
        lemma_mask_positions_members(mask, (k - 1) as nat);
        let prev = mask_positions_spec(mask, (k - 1) as nat);
        assert forall|i: usize| i < 8 implies (#[trigger] mask_positions_spec(mask, k).contains(i) <==> (i < k && bit_set(mask, i as int))) by {
            if bit_set(mask, k - 1) {
                let now = prev.push((k - 1) as usize);
                assert(mask_positions_spec(mask, k) == now);
                if now.contains(i) && !prev.contains(i) {
                    let j = choose|j: int| 0 <= j < now.len() && now[j] == i;
                    assert(j == prev.len());
                }
                if i as int == k - 1 {
                    assert(now[prev.len() as int] == (k - 1) as usize);
                }
                if prev.contains(i) {
                    let j = choose|j: int| 0 <= j < prev.len() && prev[j] == i;
                    assert(now[j] == i);
                }
            }
        }
    }
}

/// A reducing split embeds its two blocks at complementary rows: within an
/// `n`-block, every position below `n` is selected by exactly one of a label
/// set and its complement, so the two blocks have `k` and `n - k` positions.
pub proof fn lemma_split_positions_partition(n: nat, m: u8)
    requires
        n <= 4,
        m <= low_mask(n),
    ensures
        forall|i: usize| i < n ==> (#[trigger] mask_positions_spec(m, n).contains(i)
            <==> !mask_positions_spec(low_mask(n) ^ m, n).contains(i)),
        forall|i: usize| n <= i < 8 ==> !(#[trigger] mask_positions_spec(m, n).contains(i))
            && !mask_positions_spec(low_mask(n) ^ m, n).contains(i),
        mask_positions_spec(m, n).len() + mask_positions_spec(low_mask(n) ^ m, n).len() == n,
{
    let c = low_mask(n) ^ m;
    lemma_mask_positions_members(m, n);
    lemma_mask_positions_members(c, n);
    assert forall|i: usize| i < n implies (#[trigger] mask_positions_spec(m, n).contains(i)
        <==> !mask_positions_spec(c, n).contains(i)) by {
        lemma_complement_bit(n, m, i as nat);
    }
    lemma_split_counts(n, m, n);
}

/// Below `k <= n`, the set bits of a label set and of its complement number
/// `k` together.
proof fn lemma_split_counts(n: nat, m: u8, k: nat)
    requires
        n <= 4,
        m <= low_mask(n),
        k <= n,
    ensures
        bits_below(m, k) + bits_below(low_mask(n) ^ m, k) == k,
    decreases k,
{
    if k > 0 {
        lemma_split_counts(n, m, (k - 1) as nat);
        lemma_complement_bit(n, m, (k - 1) as nat);
    }
}

/// Path and face counters of the constructive solver, per rank 1..4.
pub struct ConstructiveProfile {
    pub enabled: bool,
    pub path_calls: Vec<usize>,
    pub correct_calls: Vec<usize>,
    pub correct_iters: Vec<usize>,
    pub face_equalities: Vec<usize>,
    pub face_hits: Vec<usize>,
}

impl ConstructiveProfile {
    /// Five counters (ranks 0..4) in each of the five families.
    pub open spec fn wf(&self) -> bool {
        &&& self.path_calls@.len() == 5
        &&& self.correct_calls@.len() == 5
        &&& self.correct_iters@.len() == 5
        &&& self.face_equalities@.len() == 5
        &&& self.face_hits@.len() == 5
    }

    pub open spec fn all_zero(&self) -> bool {
        &&& self.path_calls@ == seq![0usize, 0, 0, 0, 0]
        &&& self.correct_calls@ == seq![0usize, 0, 0, 0, 0]
        &&& self.correct_iters@ == seq![0usize, 0, 0, 0, 0]
        &&& self.face_equalities@ == seq![0usize, 0, 0, 0, 0]
        &&& self.face_hits@ == seq![0usize, 0, 0, 0, 0]
    }
}

fn zeros5() -> (v: Vec<usize>)
    ensures
        v@ == seq![0usize, 0, 0, 0, 0],
{
    let v: Vec<usize> = vec![0, 0, 0, 0, 0];
    assert(v@ =~= seq![0usize, 0, 0, 0, 0]);
    v
}

/// A fresh profile with every counter zero.
pub fn new_constructive_profile(enabled: bool) -> (profile: ConstructiveProfile)
    ensures
        profile.wf(),
        profile.all_zero(),
        profile.enabled == enabled,
{
    ConstructiveProfile {
        enabled,
        path_calls: zeros5(),
        correct_calls: zeros5(),
        correct_iters: zeros5(),
        face_equalities: zeros5(),
        face_hits: zeros5(),
    }
}

/// Sets every counter back to zero.
pub fn reset_constructive_profile(profile: &mut ConstructiveProfile)
    ensures
        final(profile).wf(),
        final(profile).all_zero(),
        final(profile).enabled == old(profile).enabled,
{
    profile.path_calls = zeros5();
    profile.correct_calls = zeros5();
    profile.correct_iters = zeros5();
    profile.face_equalities = zeros5();
    profile.face_hits = zeros5();
}

/// The counters of family `family` (0 path calls, 1 correction calls,
/// 2 correction iterations, 3 face equalities, 4 face hits).
pub open spec fn family(profile: ConstructiveProfile, family: int) -> Seq<usize> {
    if family == 0 {
        profile.path_calls@
    } else if family == 1 {
        profile.correct_calls@
    } else if family == 2 {
        profile.correct_iters@
    } else if family == 3 {
        profile.face_equalities@
    } else {
        profile.face_hits@
    }
}

fn bump_counter(counters: &mut Vec<usize>, rank: usize)
    requires
        rank < old(counters)@.len(),
    ensures
        final(counters)@ == old(counters)@.update(rank as int, old(counters)@[rank as int].wrapping_add(1)),
{
    let next = counters[rank].wrapping_add(1);
    counters.set(rank, next);
}

/// Counts one event of family `family` at rank `rank` when profiling is
/// enabled; every other counter is unchanged.
pub fn count_event(profile: &mut ConstructiveProfile, family_index: usize, rank: usize)
    requires
        old(profile).wf(),
        family_index < 5,
        rank < 5,
    ensures
        final(profile).wf(),
        final(profile).enabled == old(profile).enabled,
        forall|f: int| 0 <= f < 5 ==> family(*final(profile), f) == if old(profile).enabled && f == family_index {
            family(*old(profile), f).update(rank as int, family(*old(profile), f)[rank as int].wrapping_add(1))
        } else {
            family(*old(profile), f)
        },
{
    if profile.enabled {
        if family_index == 0 {
            bump_counter(&mut profile.path_calls, rank);
        } else if family_index == 1 {
            bump_counter(&mut profile.correct_calls, rank);
        } else if family_index == 2 {
            bump_counter(&mut profile.correct_iters, rank);
        } else if family_index == 3 {
            bump_counter(&mut profile.face_equalities, rank);
        } else {
            bump_counter(&mut profile.face_hits, rank);
        }
    }
}

/// The counters for ranks 1..4.
fn ranks(counters: &Vec<usize>) -> (values: Vec<usize>)
    requires
        counters@.len() == 5,
    ensures
        values@ == counters@.subrange(1, 5),
{
    let values: Vec<usize> = vec![counters[1], counters[2], counters[3], counters[4]];
    assert(values@ =~= counters@.subrange(1, 5));
    values
}

/// The report text: each family's rank 1..4 counters as a list.
pub open spec fn profile_text(profile: ConstructiveProfile) -> Seq<char> {
    "path "@ + list_text(profile.path_calls@.subrange(1, 5))
        + " correct "@ + list_text(profile.correct_calls@.subrange(1, 5))
        + " iterations "@ + list_text(profile.correct_iters@.subrange(1, 5))
        + " face_equal "@ + list_text(profile.face_equalities@.subrange(1, 5))
        + " face_hit "@ + list_text(profile.face_hits@.subrange(1, 5))
}

/// `path [..] correct [..] iterations [..] face_equal [..] face_hit [..]`,
/// each list holding the rank 1..4 counters of its family.
pub fn constructive_profile(profile: &ConstructiveProfile) -> (report: String)
    requires
        profile.wf(),
    ensures
        report@ == profile_text(*profile),
{
    let mut report = String::new();
    report.append("path ");
    push_list(&mut report, &ranks(&profile.path_calls));
    report.append(" correct ");
    push_list(&mut report, &ranks(&profile.correct_calls));
    report.append(" iterations ");
    push_list(&mut report, &ranks(&profile.correct_iters));
    report.append(" face_equal ");
    push_list(&mut report, &ranks(&profile.face_equalities));
    report.append(" face_hit ");
    push_list(&mut report, &ranks(&profile.face_hits));
    proof {
        assert(report@ =~= profile_text(*profile));
    }
    report
}

} // verus!
