//! The Klein-circulant chart: the frame is a quaternion rotation, and the
//! routing of the factor labels runs over the cosets of the Klein
//! four-group `V = {k -> k xor m}` in `S4`. What is exact here is that coset
//! bookkeeping.
use vstd::prelude::*;
use crate::permutations::{inversions, is_perm4};

verus! {

/// The six coset representatives of `S4 / V` (the orders fixing label 0),
/// each with its parity.
pub open spec fn coset_rep(r: int) -> ([usize; 4], bool) {
    if r == 0 {
        ([0, 1, 2, 3], false)
    } else if r == 1 {
        ([0, 1, 3, 2], true)
    } else if r == 2 {
        ([0, 2, 1, 3], true)
    } else if r == 3 {
        ([0, 2, 3, 1], false)
    } else if r == 4 {
        ([0, 3, 1, 2], false)
    } else {
        ([0, 3, 2, 1], true)
    }
}

/// One representative per coset of `S4 / V`, with its parity (odd orders
/// get one column negated so that the frame is special orthogonal).
pub fn coset_representatives() -> (reps: [([usize; 4], bool); 6])
    ensures
        forall|r: int| 0 <= r < 6 ==> reps[r] == coset_rep(r),
        forall|r: int| 0 <= r < 6 ==> is_perm4(#[trigger] reps[r].0) && reps[r].0[0] == 0 && reps[r].1 == (inversions(reps[r].0) % 2 == 1),
{
    [
        ([0, 1, 2, 3], false),
        ([0, 1, 3, 2], true),
        ([0, 2, 1, 3], true),
        ([0, 2, 3, 1], false),
        ([0, 3, 1, 2], false),
        ([0, 3, 2, 1], true),
    ]
}

/// The order of coset member `m` of representative `rep`: label `k` is
/// routed to `rep[k] xor m`.
pub open spec fn coset_order_spec(rep: [usize; 4], m: usize) -> [usize; 4] {
    [rep[0] ^ m, rep[1] ^ m, rep[2] ^ m, rep[3] ^ m]
}

/// The order of coset member `m` of representative `rep`.
pub fn coset_order(rep: &[usize; 4], m: usize) -> (order: [usize; 4])
    ensures
        order == coset_order_spec(*rep, m),
        forall|k: int| 0 <= k < 4 ==> #[trigger] order[k] == rep[k] ^ m,
{
    let order = [rep[0] ^ m, rep[1] ^ m, rep[2] ^ m, rep[3] ^ m];
    proof {
        lemma_coset_routing(*rep, m, 0);
    }
    order
}

/// Coset member `m` routes label `k` to `rep[k] xor m`: member 0 is the
/// representative itself, and taking member `m1` and then member `m2` of the
/// result is taking member `m1 xor m2`, so the four members form one coset
/// of the Klein four-group.
pub proof fn lemma_coset_routing(rep: [usize; 4], m1: usize, m2: usize)
    ensures
        forall|k: int| 0 <= k < 4 ==> #[trigger] coset_order_spec(rep, m1)[k] == rep[k] ^ m1,
        coset_order_spec(rep, 0) == rep,
        coset_order_spec(coset_order_spec(rep, m1), m2) == coset_order_spec(rep, m1 ^ m2),
{
    broadcast use vstd::array::group_array_axioms;
    let (a, b, c, d) = (rep[0], rep[1], rep[2], rep[3]);
    assert(a ^ 0 == a && b ^ 0 == b && c ^ 0 == c && d ^ 0 == d) by (bit_vector);
    assert((a ^ m1) ^ m2 == a ^ (m1 ^ m2) && (b ^ m1) ^ m2 == b ^ (m1 ^ m2)
        && (c ^ m1) ^ m2 == c ^ (m1 ^ m2) && (d ^ m1) ^ m2 == d ^ (m1 ^ m2)) by (bit_vector);
    assert(coset_order_spec(rep, 0) =~= rep);
    assert(coset_order_spec(coset_order_spec(rep, m1), m2) =~= coset_order_spec(rep, m1 ^ m2));
}

/// Exclusive or by a label below four permutes the labels below four.
proof fn lemma_small_xor(a: usize, m: usize)
    requires
        a < 4,
        m < 4,
    ensures
        (a ^ m) < 4,
        (a ^ m) ^ m == a,
        (0usize ^ m) == m,
        (a ^ m == 0) <==> (a == m),
{
    assert((a ^ m) < 4 && (a ^ m) ^ m == a && (0usize ^ m) == m && ((a ^ m == 0) <==> (a == m))) by (bit_vector)
        requires
            a < 4,
            m < 4,
    ;
}

/// Every coset member of a representative is an order of the four labels.
proof fn lemma_coset_member_is_order(r: int, m: usize)
    requires
        0 <= r < 6,
        m < 4,
    ensures
        is_perm4(coset_order_spec(coset_rep(r).0, m)),
        coset_order_spec(coset_rep(r).0, m)[0] == m,
{
    let rep = coset_rep(r).0;
    lemma_small_xor(rep[0], m);
    lemma_small_xor(rep[1], m);
    lemma_small_xor(rep[2], m);
    lemma_small_xor(rep[3], m);
}

/// Every order is a coset member of some representative, for `m = order[0]`.
proof fn lemma_order_in_some_coset(order: [usize; 4]) -> (r: int)
    requires
        is_perm4(order),
    ensures
        0 <= r < 6,
        coset_order_spec(coset_rep(r).0, order[0]) == order,
{
    let m = order[0];
    lemma_small_xor(order[0], m);
    lemma_small_xor(order[1], m);
    lemma_small_xor(order[2], m);
    lemma_small_xor(order[3], m);
    let t: [usize; 4] = [order[0] ^ m, order[1] ^ m, order[2] ^ m, order[3] ^ m];
    assert(t[1] != t[2] && t[1] != t[3] && t[2] != t[3]);
    let r: int = if t[1] == 1 {
        if t[2] == 2 { 0 } else { 1 }
    } else if t[1] == 2 {
        if t[2] == 1 { 2 } else { 3 }
    } else {
        if t[2] == 1 { 4 } else { 5 }
    };
    assert(coset_rep(r).0 =~= t);
    assert(coset_order_spec(coset_rep(r).0, m) =~= order);
    r
}

/// A coset member determines its representative and its `m`.
proof fn lemma_coset_member_unique(r1: int, m1: usize, r2: int, m2: usize)
    requires
        0 <= r1 < 6,
        0 <= r2 < 6,
        m1 < 4,
        m2 < 4,
        coset_order_spec(coset_rep(r1).0, m1) == coset_order_spec(coset_rep(r2).0, m2),
    ensures
        r1 == r2,
        m1 == m2,
{
    let (p, q) = (coset_rep(r1).0, coset_rep(r2).0);
    lemma_coset_member_is_order(r1, m1);
    lemma_coset_member_is_order(r2, m2);
    assert(m1 == m2);
    lemma_small_xor(p[1], m1);
    lemma_small_xor(p[2], m1);
    lemma_small_xor(q[1], m1);
    lemma_small_xor(q[2], m1);
    assert(p[1] == q[1] && p[2] == q[2]);
}

/// The cosets of the Klein four-group partition the orders: every coset
/// member of a representative is an order of the four labels, and every
/// order is the member `m` of representative `r` for exactly one `(r, m)`,
/// namely with `m = order[0]`.
pub proof fn lemma_cosets_partition_orders(order: [usize; 4])
    requires
        is_perm4(order),
    ensures
        forall|r: int, m: usize| 0 <= r < 6 && m < 4 ==> is_perm4(#[trigger] coset_order_spec(coset_rep(r).0, m)),
        exists|r: int| 0 <= r < 6 && coset_order_spec(coset_rep(r).0, order[0]) == order,
        forall|r1: int, m1: usize, r2: int, m2: usize| 0 <= r1 < 6 && 0 <= r2 < 6 && m1 < 4 && m2 < 4
            && #[trigger] coset_order_spec(coset_rep(r1).0, m1) == order && #[trigger] coset_order_spec(coset_rep(r2).0, m2) == order
            ==> r1 == r2 && m1 == m2,
{
    assert forall|r: int, m: usize| 0 <= r < 6 && m < 4 implies is_perm4(#[trigger] coset_order_spec(coset_rep(r).0, m)) by {
        lemma_coset_member_is_order(r, m);
    }
    let r = lemma_order_in_some_coset(order);
    assert forall|r1: int, m1: usize, r2: int, m2: usize| 0 <= r1 < 6 && 0 <= r2 < 6 && m1 < 4 && m2 < 4
        && #[trigger] coset_order_spec(coset_rep(r1).0, m1) == order && #[trigger] coset_order_spec(coset_rep(r2).0, m2) == order
        implies r1 == r2 && m1 == m2 by {
        lemma_coset_member_unique(r1, m1, r2, m2);
    }
}

} // verus!
