//! Support strata of the algebraic solver: the edge and face rungs, whose
//! frames are one or two Givens rotations times a signed permutation. What
//! is exact here is the bookkeeping: which labels a plane leaves fixed,
//! which target branches survive the routed-spectrum gate, and how a face
//! assigns the factor's labels to the two blocks.
use vstd::prelude::*;
use crate::atlas::plane;
use crate::masks::{bit_set, lemma_empty_mask, with_bit};
use crate::permutations::is_perm4;

verus! {

/// Label `k` lies outside the plane `{i, j}`.
pub open spec fn off_plane(i: int, j: int, k: int) -> bool {
    k != i && k != j
}

/// The least label `>= from` outside `{i, j}` (at most two labels are
/// excluded, so it is at most `from + 2`).
pub open spec fn next_off_plane(i: int, j: int, from: int) -> int {
    if off_plane(i, j, from) {
        from
    } else if off_plane(i, j, from + 1) {
        from + 1
    } else {
        from + 2
    }
}

/// The two smallest labels of `0..4` outside `{i, j}`.
pub open spec fn complement_spec(i: int, j: int) -> (int, int) {
    let a = next_off_plane(i, j, 0);
    (a, next_off_plane(i, j, a + 1))
}

/// The two smallest labels of `0..4` outside `{i, j}`, in increasing order:
/// the labels a Givens rotation in the plane `(i, j)` leaves fixed.
pub fn complement(i: usize, j: usize) -> (pair: (usize, usize))
    ensures
        pair.0 < pair.1 < 4,
        off_plane(i as int, j as int, pair.0 as int),
        off_plane(i as int, j as int, pair.1 as int),
        forall|k: int| 0 <= k < pair.0 ==> !off_plane(i as int, j as int, k),
        forall|k: int| pair.0 < k < pair.1 ==> !off_plane(i as int, j as int, k),
        (pair.0 as int, pair.1 as int) == complement_spec(i as int, j as int),
{
    let a: usize = if 0 != i && 0 != j {
        0
    } else if 1 != i && 1 != j {
        1
    } else {
        2
    };
    let b: usize = if a + 1 != i && a + 1 != j {
        a + 1
    } else if a + 2 != i && a + 2 != j {
        a + 2
    } else {
        a + 3
    };
    (a, b)
}

/// The plane with index `5 - t` is the complement of plane `t`: the
/// face rung pairs each block with the block on the remaining labels.
pub proof fn lemma_plane_complement(t: int)
    requires
        0 <= t < 6,
    ensures
        complement_spec(plane(t).0 as int, plane(t).1 as int) == (plane(5 - t).0 as int, plane(5 - t).1 as int),
{
}

/// The order a face frame routes the factor labels by: block `(a, b)` =
/// plane `p6` takes the factor pair `q6` and block `(c, d)` = plane `5 - p6`
/// takes the pair `5 - q6`; each swap flag exchanges the two labels within
/// its block.
pub open spec fn face_entry(p6: int, q6: int, swap_ab: bool, swap_cd: bool, l: int) -> usize {
    let (a, b) = plane(p6);
    let (x, y) = plane(q6);
    let (z, v) = plane(5 - q6);
    if l == a {
        if swap_ab { y } else { x }
    } else if l == b {
        if swap_ab { x } else { y }
    } else if l == complement_spec(a as int, b as int).0 {
        if swap_cd { v } else { z }
    } else {
        if swap_cd { z } else { v }
    }
}

/// The face order as an array: entry `l` is the factor label routed to `l`.
pub open spec fn face_order_spec(p6: int, q6: int, swap_ab: bool, swap_cd: bool) -> [usize; 4] {
    [
        face_entry(p6, q6, swap_ab, swap_cd, 0),
        face_entry(p6, q6, swap_ab, swap_cd, 1),
        face_entry(p6, q6, swap_ab, swap_cd, 2),
        face_entry(p6, q6, swap_ab, swap_cd, 3),
    ]
}

/// The order of a face frame `givens(a, b) givens(c, d) P`; it is always a
/// permutation of the four labels.
pub fn face_order(p6: usize, q6: usize, swap_ab: bool, swap_cd: bool) -> (perm: [usize; 4])
    requires
        p6 < 6,
        q6 < 6,
    ensures
        perm == face_order_spec(p6 as int, q6 as int, swap_ab, swap_cd),
        is_perm4(perm),
{
    let planes: [(usize, usize); 6] = [(0, 1), (0, 2), (0, 3), (1, 2), (1, 3), (2, 3)];
    let (a, b) = planes[p6];
    let (c, d) = planes[5 - p6];
    let (x, y) = planes[q6];
    let (z, v) = planes[5 - q6];
    let (xa, xb) = if swap_ab { (y, x) } else { (x, y) };
    let (za, zb) = if swap_cd { (v, z) } else { (z, v) };
    let mut perm = [0usize; 4];
    perm[a] = xa;
    perm[b] = xb;
    perm[c] = za;
    perm[d] = zb;
    proof {
        lemma_plane_complement(p6 as int);
        assert(perm =~= face_order_spec(p6 as int, q6 as int, swap_ab, swap_cd));
    }
    perm
}

/// How a face frame routes the labels: without swaps block `(a, b)` =
/// plane `p6` takes the factor pair `q6` in order and block `(c, d)` =
/// plane `5 - p6` takes the pair `5 - q6` in order; the flag `swap_ab`
/// exchanges the entries at `a` and `b` and nothing else, whatever
/// `swap_cd` is, and `swap_cd` exchanges those at `c` and `d` and nothing
/// else, whatever `swap_ab` is.
pub proof fn lemma_face_order_swaps(p6: int, q6: int, s: bool)
    requires
        0 <= p6 < 6,
        0 <= q6 < 6,
    ensures
        ({
            let (a, b) = (plane(p6).0 as int, plane(p6).1 as int);
            let (c, d) = (plane(5 - p6).0 as int, plane(5 - p6).1 as int);
            let plain = face_order_spec(p6, q6, false, false);
            let ab_on = face_order_spec(p6, q6, true, s);
            let ab_off = face_order_spec(p6, q6, false, s);
            let cd_on = face_order_spec(p6, q6, s, true);
            let cd_off = face_order_spec(p6, q6, s, false);
            &&& plain[a] == plane(q6).0 && plain[b] == plane(q6).1
            &&& plain[c] == plane(5 - q6).0 && plain[d] == plane(5 - q6).1
            &&& ab_on[a] == ab_off[b] && ab_on[b] == ab_off[a] && ab_on[c] == ab_off[c] && ab_on[d] == ab_off[d]
            &&& cd_on[c] == cd_off[d] && cd_on[d] == cd_off[c] && cd_on[a] == cd_off[a] && cd_on[b] == cd_off[b]
        }),
{
    broadcast use vstd::array::group_array_axioms;
    lemma_plane_complement(p6);
    assert(p6 == 0 || p6 == 1 || p6 == 2 || p6 == 3 || p6 == 4 || p6 == 5);
}

/// Flags of one target branch, indexed by routed entry `(k, m)`: whether
/// the routed eigenvalue `d2[k] lam[m]` lies near a root of that branch.
pub type EntryFlags = [[bool; 4]; 4];

/// The mask of the branches whose flag is set at entry `(k, m)`: bit `b`
/// stands for branch `b`.
pub open spec fn branch_bits(flags: Seq<EntryFlags>, k: int, m: int, mask: u8) -> bool {
    forall|b: int| 0 <= b < 8 ==> (bit_set(mask, b) <==> (b < flags.len() && flags[b][k][m]))
}

/// The branches flagged at entry `(k, m)`, as a mask.
pub fn branch_mask(flags: &Vec<EntryFlags>, k: usize, m: usize) -> (mask: u8)
    requires
        flags@.len() <= 8,
        k < 4,
        m < 4,
    ensures
        branch_bits(flags@, k as int, m as int, mask),
{
    let mut mask: u8 = 0;
    let mut b: usize = 0;
    proof {
        lemma_empty_mask();
    }
    while b < flags.len()
        invariant
            b <= flags@.len() <= 8,
            k < 4,
            m < 4,
            forall|j: int| 0 <= j < 8 ==> (bit_set(mask, j) <==> (j < b && flags@[j][k as int][m as int])),
        decreases flags@.len() - b,
    {
        if flags[b][k][m] {
            mask = with_bit(mask, b as u8);
        }
        b = b + 1;
    }
    mask
}

/// The routed labels `k` whose row holds a flagged entry.
pub open spec fn row_flagged(f: EntryFlags, k: int) -> bool {
    f[k][0] || f[k][1] || f[k][2] || f[k][3]
}

/// The factor labels `m` whose column holds a flagged entry.
pub open spec fn col_flagged(f: EntryFlags, m: int) -> bool {
    f[0][m] || f[1][m] || f[2][m] || f[3][m]
}

pub open spec fn indicator(b: bool) -> nat {
    if b { 1 } else { 0 }
}

/// How many rows hold a flagged entry.
pub open spec fn flagged_rows(f: EntryFlags) -> nat {
    indicator(row_flagged(f, 0)) + indicator(row_flagged(f, 1)) + indicator(row_flagged(f, 2))
        + indicator(row_flagged(f, 3))
}

/// How many columns hold a flagged entry.
pub open spec fn flagged_cols(f: EntryFlags) -> nat {
    indicator(col_flagged(f, 0)) + indicator(col_flagged(f, 1)) + indicator(col_flagged(f, 2))
        + indicator(col_flagged(f, 3))
}

/// A branch can sit on a one-Givens edge only if its flagged entries span at
/// least two rows and two columns: an edge fixes two routed eigenvalues in
/// two distinct rows and columns.
pub open spec fn admits_edge(f: EntryFlags) -> bool {
    flagged_rows(f) >= 2 && flagged_cols(f) >= 2
}

/// Whether one branch's flags span two rows and two columns.
pub fn spans_edge(f: &EntryFlags) -> (spans: bool)
    ensures
        spans == admits_edge(*f),
{
    let mut rows: usize = 0;
    let mut cols: usize = 0;
    let mut i: usize = 0;
    while i < 4
        invariant
            i <= 4,
            rows == (if i > 0 { indicator(row_flagged(*f, 0)) } else { 0 }) + (if i > 1 { indicator(row_flagged(*f, 1)) } else { 0 })
                + (if i > 2 { indicator(row_flagged(*f, 2)) } else { 0 }) + (if i > 3 { indicator(row_flagged(*f, 3)) } else { 0 }),
            cols == (if i > 0 { indicator(col_flagged(*f, 0)) } else { 0 }) + (if i > 1 { indicator(col_flagged(*f, 1)) } else { 0 })
                + (if i > 2 { indicator(col_flagged(*f, 2)) } else { 0 }) + (if i > 3 { indicator(col_flagged(*f, 3)) } else { 0 }),
        decreases 4 - i,
    {
        if f[i][0] || f[i][1] || f[i][2] || f[i][3] {
            rows = rows + 1;
        }
        if f[0][i] || f[1][i] || f[2][i] || f[3][i] {
            cols = cols + 1;
        }
        i = i + 1;
    }
    rows >= 2 && cols >= 2
}

/// The routed-support gate of a row: per entry `(k, m)`, the branches whose
/// roots it comes near (`viable`) and the branches it meets exactly
/// (`exact`). The edge rung is open only when some branch admits an edge.
pub struct RoutedSupport {
    pub edge: Option<[[u8; 4]; 4]>,
    pub exact: [[u8; 4]; 4],
}

/// Every entry of `masks` is the branch mask of `flags` at that entry.
pub open spec fn masks_of(flags: Seq<EntryFlags>, masks: [[u8; 4]; 4]) -> bool {
    forall|k: int, m: int| 0 <= k < 4 && 0 <= m < 4 ==> branch_bits(flags, k, m, #[trigger] masks[k][m])
}

/// All sixteen branch masks of `flags`.
fn entry_masks(flags: &Vec<EntryFlags>) -> (masks: [[u8; 4]; 4])
    requires
        flags@.len() <= 8,
    ensures
        masks_of(flags@, masks),
{
    let mut masks: [[u8; 4]; 4] = [[0u8; 4]; 4];
    let mut k: usize = 0;
    while k < 4
        invariant
            k <= 4,
            flags@.len() <= 8,
            forall|kk: int, m: int| 0 <= kk < k && 0 <= m < 4 ==> branch_bits(flags@, kk, m, #[trigger] masks[kk][m]),
        decreases 4 - k,
    {
        let mut row: [u8; 4] = [0u8; 4];
        let mut m: usize = 0;
        while m < 4
            invariant
                k < 4,
                m <= 4,
                flags@.len() <= 8,
                forall|mm: int| 0 <= mm < m ==> branch_bits(flags@, k as int, mm, #[trigger] row[mm]),
            decreases 4 - m,
        {
            row[m] = branch_mask(flags, k, m);
            m = m + 1;
        }
        masks[k] = row;
        k = k + 1;
    }
    masks
}

/// The routed-support gate. `near[b]` flags the entries whose routed
/// eigenvalue is close to a target eigenvalue of branch `b`, and
/// `coincident[b]` those that meet one; at most eight branches.
pub fn routed_support(near: &Vec<EntryFlags>, coincident: &Vec<EntryFlags>) -> (support: RoutedSupport)
    requires
        near@.len() <= 8,
        coincident@.len() <= 8,
    ensures
        masks_of(coincident@, support.exact),
        support.edge.is_some() <==> exists|b: int| 0 <= b < near@.len() && admits_edge(#[trigger] near@[b]),
        support.edge.is_some() ==> masks_of(near@, support.edge.unwrap()),
{
    let viable = entry_masks(near);
    let exact = entry_masks(coincident);
    let mut open = false;
    let mut b: usize = 0;
    while b < near.len()
        invariant
            b <= near@.len(),
            open <==> exists|j: int| 0 <= j < b && admits_edge(#[trigger] near@[j]),
        decreases near@.len() - b,
    {
        if spans_edge(&near[b]) {
            open = true;
        }
        b = b + 1;
    }
    RoutedSupport { edge: if open { Some(viable) } else { None }, exact }
}

/// The branches an edge in plane `(i, j)` under order `p` can still reach:
/// those viable at both routed entries the rotation leaves fixed.
pub fn edge_branches(viable: &[[u8; 4]; 4], p: &[usize; 4], i: usize, j: usize) -> (mask: u8)
    requires
        p[0] < 4 && p[1] < 4 && p[2] < 4 && p[3] < 4,
    ensures
        ({
            let (k1, k2) = complement_spec(i as int, j as int);
            mask == viable[k1][p[k1] as int] & viable[k2][p[k2] as int]
        }),
{
    let (k1, k2) = complement(i, j);
    viable[k1][p[k1]] & viable[k2][p[k2]]
}

} // verus!
