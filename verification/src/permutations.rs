//! Permutations of the four magic-basis labels: the Heap enumeration of all
//! 24 orders, their parity, and the signed permutation frames in SO(4).
use vstd::prelude::*;

verus! {

/// `a` reordered by the index permutation `p`: entry `m` is `a[p[m]]`.
pub open spec fn apply_perm(a: [usize; 4], p: [usize; 4]) -> [usize; 4] {
    [a[p[0] as int], a[p[1] as int], a[p[2] as int], a[p[3] as int]]
}

/// The `j`-th order that Heap's method visits starting from `[0, 1, 2, 3]`.
/// The first `k!` entries are the orders of the first `k` labels.
pub open spec fn heap_table(j: int) -> [usize; 4] {
    if j == 0 { [0, 1, 2, 3] }
    else if j == 1 { [1, 0, 2, 3] }
    else if j == 2 { [2, 0, 1, 3] }
    else if j == 3 { [0, 2, 1, 3] }
    else if j == 4 { [1, 2, 0, 3] }
    else if j == 5 { [2, 1, 0, 3] }
    else if j == 6 { [3, 1, 2, 0] }
    else if j == 7 { [1, 3, 2, 0] }
    else if j == 8 { [2, 3, 1, 0] }
    else if j == 9 { [3, 2, 1, 0] }
    else if j == 10 { [1, 2, 3, 0] }
    else if j == 11 { [2, 1, 3, 0] }
    else if j == 12 { [3, 0, 2, 1] }
    else if j == 13 { [0, 3, 2, 1] }
    else if j == 14 { [2, 3, 0, 1] }
    else if j == 15 { [3, 2, 0, 1] }
    else if j == 16 { [0, 2, 3, 1] }
    else if j == 17 { [2, 0, 3, 1] }
    else if j == 18 { [3, 0, 1, 2] }
    else if j == 19 { [0, 3, 1, 2] }
    else if j == 20 { [1, 3, 0, 2] }
    else if j == 21 { [3, 1, 0, 2] }
    else if j == 22 { [0, 1, 3, 2] }
    else { [1, 0, 3, 2] }
}

/// How many orders Heap's method emits for the first `k` labels (`k!`, and
/// nothing for `k = 0`).
pub open spec fn heap_count(k: nat) -> nat {
    if k == 0 { 0 } else if k == 1 { 1 } else if k == 2 { 2 } else if k == 3 { 6 } else { 24 }
}

/// The orders that Heap's method emits from `a` for its first `k` entries.
pub open spec fn heap_outputs(a: [usize; 4], k: nat) -> Seq<[usize; 4]> {
    Seq::new(heap_count(k), |j: int| apply_perm(a, heap_table(j)))
}

/// The array that Heap's method leaves behind: unchanged for `k` odd or
/// zero, the first two entries swapped for `k = 2`, and rotated right by one
/// for `k = 4`.
pub open spec fn heap_final(a: [usize; 4], k: nat) -> [usize; 4] {
    if k == 2 {
        apply_perm(a, [1, 0, 2, 3])
    } else if k == 4 {
        apply_perm(a, [3, 0, 1, 2])
    } else {
        a
    }
}

pub open spec fn swapped_entry(a: [usize; 4], i: int, j: int, m: int) -> usize {
    if m == i {
        a[j]
    } else if m == j {
        a[i]
    } else {
        a[m]
    }
}

/// `a` with entries `i` and `j` exchanged.
pub open spec fn swap_entries(a: [usize; 4], i: int, j: int) -> [usize; 4] {
    [swapped_entry(a, i, j, 0), swapped_entry(a, i, j, 1), swapped_entry(a, i, j, 2), swapped_entry(a, i, j, 3)]
}

/// The outer loop of Heap's method after `i` of its `k` rounds: every round
/// emits the orders of the first `k - 1` entries, then swaps one of them with
/// entry `k - 1` (entry `i` for even `k`, entry 0 for odd `k`).
spec fn heap_rounds(a: [usize; 4], k: nat, i: nat) -> (Seq<[usize; 4]>, [usize; 4])
    decreases i,
{
    if i == 0 {
        (Seq::empty(), a)
    } else {
        let (emitted, state) = heap_rounds(a, k, (i - 1) as nat);
        let after = heap_final(state, (k - 1) as nat);
        let pivot: int = if k % 2 == 0 { (i - 1) as int } else { 0 };
        (emitted + heap_outputs(state, (k - 1) as nat), swap_entries(after, pivot, k - 1))
    }
}

proof fn lemma_heap_rounds_complete(a: [usize; 4], k: nat)
    requires
        2 <= k <= 4,
    ensures
        heap_rounds(a, k, k).0 =~= heap_outputs(a, k),
        heap_rounds(a, k, k).1 =~= heap_final(a, k),
    decreases k,
{
    reveal_with_fuel(heap_rounds, 5);
    broadcast use vstd::array::group_array_axioms;
    if k == 2 {
        assert(heap_rounds(a, 2, 2).0 =~= heap_outputs(a, 2));
    } else if k == 3 {
        let s1 = swap_entries(heap_final(a, 2), 0, 2);
        let s2 = swap_entries(heap_final(s1, 2), 0, 2);
        assert(heap_rounds(a, 3, 1).0 =~= heap_outputs(a, 2));
        assert(heap_rounds(a, 3, 2).0 =~= heap_outputs(a, 2) + heap_outputs(s1, 2));
        assert(heap_rounds(a, 3, 3).0 =~= heap_outputs(a, 2) + heap_outputs(s1, 2) + heap_outputs(s2, 2));
        assert(heap_rounds(a, 3, 3).0 =~= heap_outputs(a, 3));
    } else {
        let s1 = swap_entries(a, 0, 3);
        let s2 = swap_entries(s1, 1, 3);
        let s3 = swap_entries(s2, 2, 3);
        lemma_heap_rounds_complete(a, 3);
        lemma_heap_rounds_complete(s1, 3);
        lemma_heap_rounds_complete(s2, 3);
        lemma_heap_rounds_complete(s3, 3);
        assert(heap_rounds(a, 4, 1).1 =~= s1);
        assert(heap_rounds(a, 4, 2).1 =~= s2);
        assert(heap_rounds(a, 4, 3).1 =~= s3);
        assert(heap_rounds(a, 4, 4).0 =~= heap_outputs(a, 3) + heap_outputs(s1, 3)
            + heap_outputs(s2, 3) + heap_outputs(s3, 3));
        assert(heap_rounds(a, 4, 4).0 =~= heap_outputs(a, 4));
    }
}

/// Heap's method on the first `k` entries of `a`: appends the `k!` orders of
/// those entries to `out` in Heap order, leaving `a` as `heap_final` says.
pub fn heap(a: &mut [usize; 4], k: usize, out: &mut Vec<[usize; 4]>)
    requires
        k <= 4,
    ensures
        final(out)@ == old(out)@ + heap_outputs(*old(a), k as nat),
        *final(a) == heap_final(*old(a), k as nat),
    decreases k,
{
    broadcast use vstd::array::group_array_axioms;
    if k == 1 {
        out.push(*a);
        assert(apply_perm(*a, heap_table(0)) =~= *a);
        assert(out@ =~= old(out)@ + heap_outputs(*old(a), 1));
        return;
    }
    let ghost a0 = *a;
    let ghost out0 = out@;
    let mut i: usize = 0;
    while i < k
        invariant
            k <= 4,
            k != 1,
            i <= k,
            a0 == *old(a),
            out0 == old(out)@,
            out@ == out0 + heap_rounds(a0, k as nat, i as nat).0,
            *a == heap_rounds(a0, k as nat, i as nat).1,
        decreases k - i,
    {
        let ghost before = out@;
        heap(a, k - 1, out);
        let pivot = if k % 2 == 0 { i } else { 0 };
        let t = a[pivot];
        let u = a[k - 1];
        a[pivot] = u;
        a[k - 1] = t;
        proof {
            assert(*a =~= heap_rounds(a0, k as nat, (i + 1) as nat).1);
            assert(out@ =~= out0 + heap_rounds(a0, k as nat, (i + 1) as nat).0);
        }
        i = i + 1;
    }
    proof {
        if k == 0 {
            assert(out@ =~= out0 + heap_outputs(a0, 0));
        } else {
            lemma_heap_rounds_complete(a0, k as nat);
        }
    }
}

/// The 24 orders of the labels `0..4` in Heap order (the first is the
/// identity), computed once by Heap's method.
pub fn perms24() -> (perms: Vec<[usize; 4]>)
    ensures
        perms@ == Seq::new(24, |j: int| heap_table(j)),
{
    broadcast use vstd::array::group_array_axioms;
    let mut out: Vec<[usize; 4]> = Vec::with_capacity(24);
    let mut a: [usize; 4] = [0, 1, 2, 3];
    heap(&mut a, 4, &mut out);
    proof {
        let id: [usize; 4] = [0, 1, 2, 3];
        assert forall|j: int| 0 <= j < 24 implies apply_perm(id, heap_table(j)) =~= heap_table(j) by {
        }
        assert(out@ =~= Seq::new(24, |j: int| heap_table(j)));
    }
    out
}

/// `p` lists each of the labels `0..4` exactly once.
pub open spec fn is_perm4(p: [usize; 4]) -> bool {
    &&& p[0] < 4 && p[1] < 4 && p[2] < 4 && p[3] < 4
    &&& p[0] != p[1] && p[0] != p[2] && p[0] != p[3]
    &&& p[1] != p[2] && p[1] != p[3]
    &&& p[2] != p[3]
}

/// Position of a permutation in the Heap table.
pub open spec fn heap_rank(p: [usize; 4]) -> int {
    if p[3] == 3 {
        if p[0] == 0 { if p[1] == 1 { 0 } else { 3 } }
        else if p[0] == 1 { if p[1] == 0 { 1 } else { 4 } }
        else { if p[1] == 0 { 2 } else { 5 } }
    } else if p[3] == 0 {
        if p[0] == 3 { if p[1] == 1 { 6 } else { 9 } }
        else if p[0] == 1 { if p[1] == 3 { 7 } else { 10 } }
        else { if p[1] == 3 { 8 } else { 11 } }
    } else if p[3] == 1 {
        if p[0] == 3 { if p[1] == 0 { 12 } else { 15 } }
        else if p[0] == 0 { if p[1] == 3 { 13 } else { 16 } }
        else { if p[1] == 3 { 14 } else { 17 } }
    } else {
        if p[0] == 3 { if p[1] == 0 { 18 } else { 21 } }
        else if p[0] == 0 { if p[1] == 3 { 19 } else { 22 } }
        else { if p[1] == 3 { 20 } else { 23 } }
    }
}

/// The Heap table lists every permutation of `0..4` exactly once: each of
/// its 24 entries is a permutation, no two entries are equal, and every
/// permutation occurs (at the position `heap_rank` gives).
pub proof fn lemma_heap_table_enumerates_permutations()
    ensures
        forall|j: int| 0 <= j < 24 ==> is_perm4(#[trigger] heap_table(j)),
        forall|i: int, j: int| 0 <= i < 24 && 0 <= j < 24 && i != j ==> heap_table(i) != heap_table(j),
        forall|p: [usize; 4]| is_perm4(p) ==> 0 <= #[trigger] heap_rank(p) < 24 && heap_table(heap_rank(p)) == p,
{
    broadcast use vstd::array::group_array_axioms;
    assert forall|j: int| 0 <= j < 24 implies heap_rank(heap_table(j)) == j by {}
    assert forall|p: [usize; 4]| is_perm4(p) implies 0 <= #[trigger] heap_rank(p) < 24 && heap_table(heap_rank(p)) == p by {
        assert(heap_table(heap_rank(p)) =~= p);
    }
}

/// Number of inverted pairs `i < j` with `p[i] > p[j]`.
pub open spec fn inversions(p: [usize; 4]) -> nat {
    (if p[0] > p[1] { 1nat } else { 0nat }) + (if p[0] > p[2] { 1nat } else { 0nat })
        + (if p[0] > p[3] { 1nat } else { 0nat }) + (if p[1] > p[2] { 1nat } else { 0nat })
        + (if p[1] > p[3] { 1nat } else { 0nat }) + (if p[2] > p[3] { 1nat } else { 0nat })
}

/// Entry `(i, j)` of the signed permutation frame of `p`: `1` at `(i, p[i])`,
/// negated in row 0 when `p` is odd, and `0` elsewhere.
pub open spec fn signed_perm_entry(p: [usize; 4], i: int, j: int) -> int {
    if j == p[i] as int {
        if i == 0 && inversions(p) % 2 == 1 { -1 } else { 1 }
    } else {
        0
    }
}

/// The signed permutation frame `P ∈ SO(4)` of `p`: the permutation matrix
/// with `P[i][p[i]] = 1`, row 0 negated when `p` has an odd number of
/// inversions so that the determinant is `+1`.
pub fn signed_perm(p: [usize; 4]) -> (m: [[i8; 4]; 4])
    requires
        p[0] < 4 && p[1] < 4 && p[2] < 4 && p[3] < 4,
    ensures
        forall|i: int, j: int| 0 <= i < 4 && 0 <= j < 4 ==> m[i][j] as int == signed_perm_entry(p, i, j),
{
    let mut m: [[i8; 4]; 4] = [[0i8; 4]; 4];
    let mut i: usize = 0;
    while i < 4
        invariant
            i <= 4,
            p[0] < 4 && p[1] < 4 && p[2] < 4 && p[3] < 4,
            forall|r: int, c: int| 0 <= r < 4 && 0 <= c < 4 ==> m[r][c] == (if r < i && c == p[r] as int { 1i8 } else { 0i8 }),
        decreases 4 - i,
    {
        let mut row = m[i];
        row[p[i]] = 1;
        m[i] = row;
        i = i + 1;
    }
    let mut inverted: usize = 0;
    let mut a: usize = 0;
    while a < 4
        invariant
            a <= 4,
            inverted <= 4 * a,
            inverted == inversions_before(p, a as int),
        decreases 4 - a,
    {
        let mut b: usize = a + 1;
        while b < 4
            invariant
                a < 4,
                a + 1 <= b <= 4,
                inverted <= 4 * a + b,
                inverted == inversions_before(p, a as int) + inversions_from(p, a as int, b as int),
            decreases 4 - b,
        {
            if p[a] > p[b] {
                inverted = inverted + 1;
            }
            b = b + 1;
        }
        a = a + 1;
    }
    proof {
        lemma_inversion_count(p);
    }
    if inverted % 2 == 1 {
        let mut row = m[0];
        let mut j: usize = 0;
        while j < 4
            invariant
                j <= 4,
                forall|c: int| 0 <= c < 4 ==> row[c] as int == (if c < j { -(m[0][c] as int) } else { m[0][c] as int }),
                forall|c: int| 0 <= c < 4 ==> m[0][c] == 0 || m[0][c] == 1,
            decreases 4 - j,
        {
            row[j] = -row[j];
            j = j + 1;
        }
        m[0] = row;
    }
    m
}

proof fn lemma_inversion_count(p: [usize; 4])
    ensures
        inversions_before(p, 4) == inversions(p),
{
    reveal_with_fuel(inversions_before, 5);
    reveal_with_fuel(inversions_from, 5);
}

/// Inverted pairs `(a, b)` with `a < i`.
spec fn inversions_before(p: [usize; 4], i: int) -> nat
    decreases i,
{
    if i <= 0 {
        0
    } else {
        inversions_before(p, i - 1) + inversions_from(p, i - 1, 4)
    }
}

/// Inverted pairs `(a, b)` with `a < b < upto`, for the fixed first index `a`.
spec fn inversions_from(p: [usize; 4], a: int, upto: int) -> nat
    decreases upto - a,
{
    if upto <= a + 1 {
        0
    } else {
        inversions_from(p, a, upto - 1) + (if p[a] > p[upto - 1] { 1nat } else { 0nat })
    }
}

/// The determinant of an integer 4x4 matrix, by the Leibniz expansion over
/// the 24 permutations (even ones added, odd ones subtracted).
pub open spec fn det4(m: [[i8; 4]; 4]) -> int {
    let t = |a: int, b: int, c: int, d: int| (m[0][a] as int) * (m[1][b] as int) * (m[2][c] as int) * (m[3][d] as int);
    t(0, 1, 2, 3) - t(0, 1, 3, 2) - t(0, 2, 1, 3) + t(0, 2, 3, 1) + t(0, 3, 1, 2) - t(0, 3, 2, 1)
    - t(1, 0, 2, 3) + t(1, 0, 3, 2) + t(1, 2, 0, 3) - t(1, 2, 3, 0) - t(1, 3, 0, 2) + t(1, 3, 2, 0)
    + t(2, 0, 1, 3) - t(2, 0, 3, 1) - t(2, 1, 0, 3) + t(2, 1, 3, 0) + t(2, 3, 0, 1) - t(2, 3, 1, 0)
    - t(3, 0, 1, 2) + t(3, 0, 2, 1) + t(3, 1, 0, 2) - t(3, 1, 2, 0) - t(3, 2, 0, 1) + t(3, 2, 1, 0)
}

/// Rows `i` and `k` of `m`, multiplied entrywise and summed.
pub open spec fn row_dot(m: [[i8; 4]; 4], i: int, k: int) -> int {
    (m[i][0] as int) * (m[k][0] as int) + (m[i][1] as int) * (m[k][1] as int)
        + (m[i][2] as int) * (m[k][2] as int) + (m[i][3] as int) * (m[k][3] as int)
}

/// Every signed permutation frame of a permutation lies in SO(4): its rows
/// are orthonormal and its determinant is `+1`.
pub proof fn lemma_signed_perm_is_special_orthogonal(p: [usize; 4], m: [[i8; 4]; 4])
    requires
        is_perm4(p),
        forall|i: int, j: int| 0 <= i < 4 && 0 <= j < 4 ==> m[i][j] as int == signed_perm_entry(p, i, j),
    ensures
        det4(m) == 1,
        forall|i: int, k: int| 0 <= i < 4 && 0 <= k < 4 ==> row_dot(m, i, k) == (if i == k { 1int } else { 0int }),
{
    lemma_heap_table_enumerates_permutations();
    assert(m[0][0] as int == signed_perm_entry(p, 0, 0));
    assert(m[0][1] as int == signed_perm_entry(p, 0, 1));
    assert(m[0][2] as int == signed_perm_entry(p, 0, 2));
    assert(m[0][3] as int == signed_perm_entry(p, 0, 3));
    assert(m[1][0] as int == signed_perm_entry(p, 1, 0));
    assert(m[1][1] as int == signed_perm_entry(p, 1, 1));
    assert(m[1][2] as int == signed_perm_entry(p, 1, 2));
    assert(m[1][3] as int == signed_perm_entry(p, 1, 3));
    assert(m[2][0] as int == signed_perm_entry(p, 2, 0));
    assert(m[2][1] as int == signed_perm_entry(p, 2, 1));
    assert(m[2][2] as int == signed_perm_entry(p, 2, 2));
    assert(m[2][3] as int == signed_perm_entry(p, 2, 3));
    assert(m[3][0] as int == signed_perm_entry(p, 3, 0));
    assert(m[3][1] as int == signed_perm_entry(p, 3, 1));
    assert(m[3][2] as int == signed_perm_entry(p, 3, 2));
    assert(m[3][3] as int == signed_perm_entry(p, 3, 3));
    let r = heap_rank(p);
    assert(heap_table(r) == p);
    assert forall|i: int, k: int| 0 <= i < 4 && 0 <= k < 4 implies row_dot(m, i, k) == (if i == k { 1int } else { 0int }) by {
        lemma_row_dot_of_signed_rows(p, m, i, k);
    }
}

proof fn lemma_row_dot_of_signed_rows(p: [usize; 4], m: [[i8; 4]; 4], i: int, k: int)
    requires
        is_perm4(p),
        0 <= i < 4,
        0 <= k < 4,
        forall|a: int, b: int| 0 <= a < 4 && 0 <= b < 4 ==> m[a][b] as int == signed_perm_entry(p, a, b),
    ensures
        row_dot(m, i, k) == (if i == k { 1int } else { 0int }),
{
    let si: int = if i == 0 && inversions(p) % 2 == 1 { -1 } else { 1 };
    let sk: int = if k == 0 && inversions(p) % 2 == 1 { -1 } else { 1 };
    assert(si * si == 1 && sk * sk == 1) by (nonlinear_arith)
        requires si == 1 || si == -1, sk == 1 || sk == -1;
    assert forall|c: int| 0 <= c < 4 implies (m[i][c] as int) * (m[k][c] as int)
        == (if c == p[i] as int && c == p[k] as int { si * sk } else { 0 }) by {
        assert(m[i][c] as int == signed_perm_entry(p, i, c));
        assert(m[k][c] as int == signed_perm_entry(p, k, c));
    }
    if i == k {
        assert(si == sk);
    } else {
        assert(p[i] != p[k]);
    }
}

/// The base-4 code of an order: `p[0] + 4 p[1] + 16 p[2] + 64 p[3]`.
pub open spec fn perm_code_spec(p: [usize; 4]) -> int {
    p[0] as int + 4 * (p[1] as int) + 16 * (p[2] as int) + 64 * (p[3] as int)
}

/// Packs an order of the labels `0..4` into one byte, two bits per entry.
pub fn perm_code(p: [usize; 4]) -> (code: u8)
    requires
        p[0] < 4 && p[1] < 4 && p[2] < 4 && p[3] < 4,
    ensures
        code as int == perm_code_spec(p),
{
    let (a, b, c, d) = (p[0], p[1], p[2], p[3]);
    assert(a | b << 2usize | c << 4usize | d << 6usize == a + 4 * b + 16 * c + 64 * d
        && a + 4 * b + 16 * c + 64 * d < 256) by (bit_vector)
        requires a < 4usize && b < 4usize && c < 4usize && d < 4usize;
    (a | b << 2usize | c << 4usize | d << 6usize) as u8
}

/// Orders with entries below four have equal codes only if they are equal.
pub proof fn lemma_perm_code_injective(p: [usize; 4], q: [usize; 4])
    requires
        p[0] < 4 && p[1] < 4 && p[2] < 4 && p[3] < 4,
        q[0] < 4 && q[1] < 4 && q[2] < 4 && q[3] < 4,
        perm_code_spec(p) == perm_code_spec(q),
    ensures
        p == q,
{
    broadcast use vstd::array::group_array_axioms;
    assert(p =~= q);
}

/// Two orders agree entry by entry.
pub fn same_order(p: &[usize; 4], q: &[usize; 4]) -> (same: bool)
    ensures
        same == (*p == *q),
{
    broadcast use vstd::array::group_array_axioms;
    let same = p[0] == q[0] && p[1] == q[1] && p[2] == q[2] && p[3] == q[3];
    proof {
        if same {
            assert(*p =~= *q);
        }
    }
    same
}

/// Position of the first occurrence of `p` in `table`, or `None`.
pub fn position_of_order(table: &Vec<[usize; 4]>, p: &[usize; 4]) -> (index: Option<usize>)
    ensures
        match index {
            Some(i) => i < table@.len() && table@[i as int] == *p && forall|j: int| 0 <= j < i ==> table@[j] != *p,
            None => forall|j: int| 0 <= j < table@.len() ==> table@[j] != *p,
        },
{
    let mut i: usize = 0;
    while i < table.len()
        invariant
            i <= table@.len(),
            forall|j: int| 0 <= j < i ==> table@[j] != *p,
        decreases table@.len() - i,
    {
        if same_order(&table[i], p) {
            return Some(i);
        }
        i = i + 1;
    }
    None
}

} // verus!
