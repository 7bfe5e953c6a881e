//! The three-Givens interior chart atlas: the ordered spanning-tree plane
//! words, the corner permutations of a chart, and the exact quotient of the
//! (word, order) charts by reparameterizations of the parameter cube.
use vstd::prelude::*;
use crate::permutations::{heap_table, is_perm4, perm_code, perm_code_spec, perms24, swap_entries};


verus! {

/// A Givens plane: an unordered pair of distinct labels, smaller first.
pub type Plane = (usize, usize);

/// An ordered three-Givens plane word.
pub type Word = [Plane; 3];

/// The six Givens planes (the six transpositions of four labels), in
/// lexicographic order.
pub open spec fn plane(k: int) -> Plane {
    if k == 0 {
        (0, 1)
    } else if k == 1 {
        (0, 2)
    } else if k == 2 {
        (0, 3)
    } else if k == 3 {
        (1, 2)
    } else if k == 4 {
        (1, 3)
    } else {
        (2, 3)
    }
}

/// The six Givens planes in lexicographic order.
pub fn planes() -> (result: [Plane; 6])
    ensures
        forall|k: int| 0 <= k < 6 ==> result[k] == plane(k),
{
    [(0, 1), (0, 2), (0, 3), (1, 2), (1, 3), (2, 3)]
}

/// The sixteen historical hot-path words, one ordering of each spanning tree
/// of the complete graph on four labels.
pub open spec fn head_word(i: int) -> Word {
    if i == 0 { [(0, 1), (1, 2), (2, 3)] }
    else if i == 1 { [(0, 1), (0, 2), (0, 3)] }
    else if i == 2 { [(0, 1), (1, 2), (1, 3)] }
    else if i == 3 { [(0, 2), (0, 3), (1, 2)] }
    else if i == 4 { [(0, 2), (1, 3), (1, 2)] }
    else if i == 5 { [(0, 3), (1, 2), (1, 3)] }
    else if i == 6 { [(0, 2), (0, 3), (1, 3)] }
    else if i == 7 { [(0, 1), (0, 2), (1, 3)] }
    else if i == 8 { [(0, 1), (0, 2), (2, 3)] }
    else if i == 9 { [(0, 1), (0, 3), (1, 2)] }
    else if i == 10 { [(0, 1), (0, 3), (2, 3)] }
    else if i == 11 { [(0, 1), (1, 3), (2, 3)] }
    else if i == 12 { [(0, 2), (1, 2), (2, 3)] }
    else if i == 13 { [(0, 2), (1, 3), (2, 3)] }
    else if i == 14 { [(0, 3), (1, 2), (2, 3)] }
    else { [(0, 3), (1, 3), (2, 3)] }
}

pub open spec fn head_words() -> Seq<Word> {
    Seq::new(16, |i: int| head_word(i))
}

/// The word of three planes with plane indices `t / 36`, `(t / 6) % 6`,
/// `t % 6`: the ordered triples of planes in lexicographic order.
pub open spec fn triple_word(t: int) -> Word {
    [plane(t / 36), plane((t / 6) % 6), plane(t % 6)]
}

/// Label `v` is an endpoint of one of the word's planes.
pub open spec fn touches(w: Word, v: usize) -> bool {
    w[0].0 == v || w[0].1 == v || w[1].0 == v || w[1].1 == v || w[2].0 == v || w[2].1 == v
}

/// Three different planes that together touch all four labels: an ordered
/// spanning tree of the complete graph on four labels.
pub open spec fn is_tree_word(w: Word) -> bool {
    &&& w[0] != w[1] && w[0] != w[2] && w[1] != w[2]
    &&& touches(w, 0) && touches(w, 1) && touches(w, 2) && touches(w, 3)
}

/// The appended ordering: a spanning-tree word that is not a head word.
pub open spec fn is_appended_word(w: Word) -> bool {
    is_tree_word(w) && !head_words().contains(w)
}

/// The appended words among the first `t` ordered triples, in triple order.
pub open spec fn appended_words(t: nat) -> Seq<Word>
    decreases t,
{
    if t == 0 {
        Seq::empty()
    } else {
        let before = appended_words((t - 1) as nat);
        let w = triple_word(t - 1);
        if is_appended_word(w) {
            before.push(w)
        } else {
            before
        }
    }
}

/// The complete ordered atlas: the sixteen head words, then every other
/// ordering of a spanning tree, in lexicographic triple order.
pub open spec fn interior_words_spec() -> Seq<Word> {
    head_words() + appended_words(216)
}

/// Two plane words agree plane by plane.
pub fn same_word(a: &Word, b: &Word) -> (same: bool)
    ensures
        same == (*a == *b),
{
    broadcast use vstd::array::group_array_axioms;
    let same = a[0].0 == b[0].0 && a[0].1 == b[0].1 && a[1].0 == b[1].0 && a[1].1 == b[1].1
        && a[2].0 == b[2].0 && a[2].1 == b[2].1;
    proof {
        if same {
            assert(*a =~= *b);
        }
    }
    same
}

/// Whether the planes of `w` together touch all four labels.
fn covers_all_labels(w: &Word) -> (all: bool)
    requires
        w[0].0 < 4 && w[0].1 < 4 && w[1].0 < 4 && w[1].1 < 4 && w[2].0 < 4 && w[2].1 < 4,
    ensures
        all == (touches(*w, 0) && touches(*w, 1) && touches(*w, 2) && touches(*w, 3)),
{
    let mut touched: [bool; 4] = [false, false, false, false];
    touched[w[0].0] = true;
    touched[w[0].1] = true;
    touched[w[1].0] = true;
    touched[w[1].1] = true;
    touched[w[2].0] = true;
    touched[w[2].1] = true;
    assert(forall|v: int| 0 <= v < 4 ==> touched[v] == touches(*w, v as usize));
    touched[0] && touched[1] && touched[2] && touched[3]
}

fn contains_word(words: &Vec<Word>, w: &Word) -> (found: bool)
    ensures
        found == words@.contains(*w),
{
    let mut i: usize = 0;
    while i < words.len()
        invariant
            i <= words@.len(),
            forall|j: int| 0 <= j < i ==> words@[j] != *w,
        decreases words@.len() - i,
    {
        if same_word(&words[i], w) {
            return true;
        }
        i = i + 1;
    }
    false
}

proof fn lemma_triple_word_injective(s: int, t: int)
    requires
        0 <= s < 216,
        0 <= t < 216,
        triple_word(s) == triple_word(t),
    ensures
        s == t,
{
    assert(triple_word(s)[0] == triple_word(t)[0]);
    assert(triple_word(s)[1] == triple_word(t)[1]);
    assert(triple_word(s)[2] == triple_word(t)[2]);
    assert(s / 36 == t / 36);
    assert((s / 6) % 6 == (t / 6) % 6);
    assert(s % 6 == t % 6);
    assert(s == 36 * (s / 36) + 6 * ((s / 6) % 6) + s % 6);
    assert(t == 36 * (t / 36) + 6 * ((t / 6) % 6) + t % 6);
}

proof fn lemma_appended_words_come_from_earlier_triples(t: nat, i: int)
    requires
        t <= 216,
        0 <= i < appended_words(t).len(),
    ensures
        exists|s: int| 0 <= s < t && appended_words(t)[i] == triple_word(s),
        is_appended_word(appended_words(t)[i]),
    decreases t,
{
    if t > 0 {
        let before = appended_words((t - 1) as nat);
        if i < before.len() {
            lemma_appended_words_come_from_earlier_triples((t - 1) as nat, i);
            assert(appended_words(t)[i] == before[i]);
        }
    }
}

/// The ordered three-Givens words whose planes form a spanning tree of the
/// complete graph on four labels: the sixteen hot-path words first, then
/// every missing ordering in lexicographic triple order.
pub fn interior_planes() -> (words: Vec<Word>)
    ensures
        words@ == interior_words_spec(),
{
    let pl = planes();
    let mut words: Vec<Word> = vec![
        [(0, 1), (1, 2), (2, 3)],
        [(0, 1), (0, 2), (0, 3)],
        [(0, 1), (1, 2), (1, 3)],
        [(0, 2), (0, 3), (1, 2)],
        [(0, 2), (1, 3), (1, 2)],
        [(0, 3), (1, 2), (1, 3)],
        [(0, 2), (0, 3), (1, 3)],
        [(0, 1), (0, 2), (1, 3)],
        [(0, 1), (0, 2), (2, 3)],
        [(0, 1), (0, 3), (1, 2)],
        [(0, 1), (0, 3), (2, 3)],
        [(0, 1), (1, 3), (2, 3)],
        [(0, 2), (1, 2), (2, 3)],
        [(0, 2), (1, 3), (2, 3)],
        [(0, 3), (1, 2), (2, 3)],
        [(0, 3), (1, 3), (2, 3)],
    ];
    proof {
        broadcast use vstd::array::group_array_axioms;
        assert(words@ =~= head_words());
    }
    let mut x: usize = 0;
    while x < 6
        invariant
            x <= 6,
            forall|k: int| 0 <= k < 6 ==> pl[k] == plane(k),
            words@ == head_words() + appended_words(36 * x as nat),
        decreases 6 - x,
    {
        let mut y: usize = 0;
        while y < 6
            invariant
                x < 6,
                y <= 6,
                forall|k: int| 0 <= k < 6 ==> pl[k] == plane(k),
                words@ == head_words() + appended_words((36 * x + 6 * y) as nat),
            decreases 6 - y,
        {
            let mut z: usize = 0;
            while z < 6
                invariant
                    x < 6,
                    y < 6,
                    z <= 6,
                    forall|k: int| 0 <= k < 6 ==> pl[k] == plane(k),
                    words@ == head_words() + appended_words((36 * x + 6 * y + z) as nat),
                decreases 6 - z,
            {
                let (a, b, c) = (pl[x], pl[y], pl[z]);
                let ghost t: int = 36 * x + 6 * y + z;
                let word: Word = [a, b, c];
                proof {
                    broadcast use vstd::array::group_array_axioms;
                    assert(t / 36 == x && (t / 6) % 6 == y && t % 6 == z);
                    assert(word =~= triple_word(t));
                }
                let distinct = !(a.0 == b.0 && a.1 == b.1) && !(a.0 == c.0 && a.1 == c.1)
                    && !(b.0 == c.0 && b.1 == c.1);
                if distinct {
                    let all = covers_all_labels(&word);
                    if all {
                        let present = contains_word(&words, &word);
                        proof {
                            if !head_words().contains(word) {
                                if words@.contains(word) {
                                    let i = choose|i: int| 0 <= i < words@.len() && words@[i] == word;
                                    lemma_appended_words_come_from_earlier_triples(t as nat, i - 16);
                                    let s = choose|s: int| 0 <= s < t && appended_words(t as nat)[i - 16] == triple_word(s);
                                    lemma_triple_word_injective(s, t);
                                }
                            } else {
                                let i = choose|i: int| 0 <= i < 16 && head_words()[i] == word;
                                assert(words@[i] == word);
                            }
                        }
                        if !present {
                            words.push(word);
                        }
                    }
                }
                proof {
                    assert(words@ =~= head_words() + appended_words((t + 1) as nat));
                }
                z = z + 1;
            }
            y = y + 1;
        }
        x = x + 1;
    }
    words
}

/// Every plane of the word is one of the six Givens planes.
pub open spec fn is_plane_word(w: Word) -> bool {
    &&& exists|k: int| 0 <= k < 6 && w[0] == plane(k)
    &&& exists|k: int| 0 <= k < 6 && w[1] == plane(k)
    &&& exists|k: int| 0 <= k < 6 && w[2] == plane(k)
}

proof fn lemma_appended_words_contain_triple(t: nat, s: int)
    requires
        t <= 216,
        0 <= s < t,
        is_appended_word(triple_word(s)),
    ensures
        appended_words(t).contains(triple_word(s)),
    decreases t,
{
    let before = appended_words((t - 1) as nat);
    if s < t - 1 {
        lemma_appended_words_contain_triple((t - 1) as nat, s);
        let i = choose|i: int| 0 <= i < before.len() && before[i] == triple_word(s);
        assert(appended_words(t)[i] == triple_word(s));
    } else {
        assert(appended_words(t)[before.len() as int] == triple_word(s));
    }
}

proof fn lemma_appended_words_distinct(t: nat)
    requires
        t <= 216,
    ensures
        appended_words(t).no_duplicates(),
        forall|i: int| 0 <= i < appended_words(t).len() ==> exists|s: int| 0 <= s < t && #[trigger] appended_words(t)[i] == triple_word(s),
    decreases t,
{
    if t > 0 {
        let before = appended_words((t - 1) as nat);
        lemma_appended_words_distinct((t - 1) as nat);
        let w = triple_word(t - 1);
        if is_appended_word(w) {
            assert forall|i: int| 0 <= i < before.len() implies before[i] != w by {
                let s = choose|s: int| 0 <= s < t - 1 && before[i] == triple_word(s);
                if before[i] == w {
                    lemma_triple_word_injective(s, t - 1);
                }
            }
            assert forall|i: int| 0 <= i < appended_words(t).len() implies exists|s: int| 0 <= s < t && #[trigger] appended_words(t)[i] == triple_word(s) by {
                if i < before.len() {
                    assert(appended_words(t)[i] == before[i]);
                } else {
                    assert(appended_words(t)[i] == triple_word(t - 1));
                }
            }
        }
    }
}

/// The interior atlas is exactly the set of ordered spanning-tree words over
/// the six Givens planes, each listed once: every word in it is a tree word
/// over the planes, no word repeats, and every such tree word occurs.
pub proof fn lemma_interior_words_are_the_tree_words()
    ensures
        forall|i: int| 0 <= i < interior_words_spec().len() ==> is_tree_word(#[trigger] interior_words_spec()[i]) && is_plane_word(interior_words_spec()[i]),
        interior_words_spec().no_duplicates(),
        forall|w: Word| is_tree_word(w) && is_plane_word(w) ==> interior_words_spec().contains(w),
        forall|i: int| 0 <= i < 16 ==> #[trigger] interior_words_spec()[i] == head_word(i),
{
    broadcast use vstd::array::group_array_axioms;
    let head = head_words();
    let tail = appended_words(216);
    let all = interior_words_spec();
    lemma_appended_words_distinct(216);
    assert forall|i: int| 0 <= i < 16 implies is_tree_word(#[trigger] head[i]) && is_plane_word(head[i]) && #[trigger] all[i] == head_word(i) by {
        assert(all[i] == head[i]);
        if i == 0 { assert(head[i][0] == plane(0) && head[i][1] == plane(3) && head[i][2] == plane(5)); }
        else if i == 1 { assert(head[i][0] == plane(0) && head[i][1] == plane(1) && head[i][2] == plane(2)); }
        else if i == 2 { assert(head[i][0] == plane(0) && head[i][1] == plane(3) && head[i][2] == plane(4)); }
        else if i == 3 { assert(head[i][0] == plane(1) && head[i][1] == plane(2) && head[i][2] == plane(3)); }
        else if i == 4 { assert(head[i][0] == plane(1) && head[i][1] == plane(4) && head[i][2] == plane(3)); }
        else if i == 5 { assert(head[i][0] == plane(2) && head[i][1] == plane(3) && head[i][2] == plane(4)); }
        else if i == 6 { assert(head[i][0] == plane(1) && head[i][1] == plane(2) && head[i][2] == plane(4)); }
        else if i == 7 { assert(head[i][0] == plane(0) && head[i][1] == plane(1) && head[i][2] == plane(4)); }
        else if i == 8 { assert(head[i][0] == plane(0) && head[i][1] == plane(1) && head[i][2] == plane(5)); }
        else if i == 9 { assert(head[i][0] == plane(0) && head[i][1] == plane(2) && head[i][2] == plane(3)); }
        else if i == 10 { assert(head[i][0] == plane(0) && head[i][1] == plane(2) && head[i][2] == plane(5)); }
        else if i == 11 { assert(head[i][0] == plane(0) && head[i][1] == plane(4) && head[i][2] == plane(5)); }
        else if i == 12 { assert(head[i][0] == plane(1) && head[i][1] == plane(3) && head[i][2] == plane(5)); }
        else if i == 13 { assert(head[i][0] == plane(1) && head[i][1] == plane(4) && head[i][2] == plane(5)); }
        else if i == 14 { assert(head[i][0] == plane(2) && head[i][1] == plane(3) && head[i][2] == plane(5)); }
        else { assert(head[i][0] == plane(2) && head[i][1] == plane(4) && head[i][2] == plane(5)); }
    }
    assert forall|i: int| 0 <= i < all.len() implies is_tree_word(#[trigger] all[i]) && is_plane_word(all[i]) by {
        if i >= 16 {
            assert(all[i] == tail[i - 16]);
            lemma_appended_words_come_from_earlier_triples(216, i - 16);
            let s = choose|s: int| 0 <= s < 216 && tail[i - 16] == triple_word(s);
            assert(all[i][0] == plane(s / 36) && all[i][1] == plane((s / 6) % 6) && all[i][2] == plane(s % 6));
        }
    }
    assert forall|i: int, j: int| 0 <= i < all.len() && 0 <= j < all.len() && i != j implies all[i] != all[j] by {
        if i < 16 && j < 16 {
            assert(all[i] == head_word(i) && all[j] == head_word(j));
        } else if i < 16 {
            lemma_appended_words_come_from_earlier_triples(216, j - 16);
            assert(all[j] == tail[j - 16]);
            assert(head[i] == all[i]);
        } else if j < 16 {
            lemma_appended_words_come_from_earlier_triples(216, i - 16);
            assert(all[i] == tail[i - 16]);
            assert(head[j] == all[j]);
        } else {
            assert(all[i] == tail[i - 16] && all[j] == tail[j - 16]);
        }
    }
    assert forall|w: Word| is_tree_word(w) && is_plane_word(w) implies all.contains(w) by {
        if head.contains(w) {
            let i = choose|i: int| 0 <= i < head.len() && head[i] == w;
            assert(all[i] == w);
        } else {
            let k0 = choose|k: int| 0 <= k < 6 && w[0] == plane(k);
            let k1 = choose|k: int| 0 <= k < 6 && w[1] == plane(k);
            let k2 = choose|k: int| 0 <= k < 6 && w[2] == plane(k);
            let s = 36 * k0 + 6 * k1 + k2;
            assert(s / 36 == k0 && (s / 6) % 6 == k1 && s % 6 == k2);
            assert(triple_word(s) =~= w);
            lemma_appended_words_contain_triple(216, s);
            let i = choose|i: int| 0 <= i < tail.len() && tail[i] == w;
            assert(all[i + 16] == w);
        }
    }
}

/// Coordinate `q` of the `k`-th corner of the parameter cube `[0,1]^3`, in the
/// order `000, 100, 010, 001, 110, 101, 011, 111` (monomial order of the
/// trilinear form).
pub open spec fn corner_bit(k: int, q: int) -> usize {
    if k == 0 { 0 }
    else if k == 1 { if q == 0 { 1 } else { 0 } }
    else if k == 2 { if q == 1 { 1 } else { 0 } }
    else if k == 3 { if q == 2 { 1 } else { 0 } }
    else if k == 4 { if q == 2 { 0 } else { 1 } }
    else if k == 5 { if q == 1 { 0 } else { 1 } }
    else if k == 6 { if q == 0 { 0 } else { 1 } }
    else { 1 }
}

/// Coordinate `q` of the `k`-th cube corner.
pub fn corner(k: usize, q: usize) -> (bit: usize)
    requires
        k < 8,
        q < 3,
    ensures
        bit == corner_bit(k as int, q as int),
{
    if k == 0 {
        0
    } else if k == 1 {
        if q == 0 { 1 } else { 0 }
    } else if k == 2 {
        if q == 1 { 1 } else { 0 }
    } else if k == 3 {
        if q == 2 { 1 } else { 0 }
    } else if k == 4 {
        if q == 2 { 0 } else { 1 }
    } else if k == 5 {
        if q == 1 { 0 } else { 1 }
    } else if k == 6 {
        if q == 0 { 0 } else { 1 }
    } else {
        1
    }
}

/// Position of the cube corner with coordinates `(b0, b1, b2)`.
pub open spec fn corner_position(b0: int, b1: int, b2: int) -> int {
    if b2 == 0 {
        if b1 == 0 { if b0 == 0 { 0 } else { 1 } } else { if b0 == 0 { 2 } else { 4 } }
    } else {
        if b1 == 0 { if b0 == 0 { 3 } else { 5 } } else { if b0 == 0 { 6 } else { 7 } }
    }
}

/// Position of the cube corner with coordinates `bits` (each 0 or 1).
pub fn corner_index(bits: [usize; 3]) -> (k: usize)
    requires
        bits[0] < 2 && bits[1] < 2 && bits[2] < 2,
    ensures
        k < 8,
        corner_bit(k as int, 0) == bits[0] && corner_bit(k as int, 1) == bits[1] && corner_bit(k as int, 2) == bits[2],
{
    let mut k: usize = 0;
    while k < 8
        invariant
            k <= 8,
            bits[0] < 2 && bits[1] < 2 && bits[2] < 2,
            forall|j: int| 0 <= j < k ==> !(corner_bit(j, 0) == bits[0] && corner_bit(j, 1) == bits[1] && corner_bit(j, 2) == bits[2]),
        decreases 8 - k,
    {
        if corner(k, 0) == bits[0] && corner(k, 1) == bits[1] && corner(k, 2) == bits[2] {
            return k;
        }
        k = k + 1;
    }
    proof {
        let j = corner_position(bits[0] as int, bits[1] as int, bits[2] as int);
        assert(corner_bit(j, 0) == bits[0] && corner_bit(j, 1) == bits[1] && corner_bit(j, 2) == bits[2]);
    }
    0
}

/// The order at corner `k` of the chart `(w, p)` after the first `n` planes:
/// a plane whose cube coordinate is 0 is a quarter turn, which swaps its two
/// labels; coordinate 1 is the identity.
pub open spec fn corner_order_upto(w: Word, p: [usize; 4], k: int, n: nat) -> [usize; 4]
    decreases n,
{
    if n == 0 {
        p
    } else {
        let before = corner_order_upto(w, p, k, (n - 1) as nat);
        let q = n - 1;
        if corner_bit(k, q) == 0 {
            swap_entries(before, w[q].0 as int, w[q].1 as int)
        } else {
            before
        }
    }
}

/// The signed permutation that the chart `(w, p)` reaches at cube corner `k`.
pub open spec fn corner_order(w: Word, p: [usize; 4], k: int) -> [usize; 4] {
    corner_order_upto(w, p, k, 3)
}

/// The planes of `w` are pairs of labels below four.
pub open spec fn labels_in_range(w: Word) -> bool {
    w[0].0 < 4 && w[0].1 < 4 && w[1].0 < 4 && w[1].1 < 4 && w[2].0 < 4 && w[2].1 < 4
}

pub open spec fn entries_in_range(p: [usize; 4]) -> bool {
    p[0] < 4 && p[1] < 4 && p[2] < 4 && p[3] < 4
}

proof fn lemma_swap_keeps_range(a: [usize; 4], i: int, j: int)
    requires
        entries_in_range(a),
        0 <= i < 4,
        0 <= j < 4,
    ensures
        entries_in_range(swap_entries(a, i, j)),
{
}

proof fn lemma_corner_order_in_range(w: Word, p: [usize; 4], k: int, n: nat)
    requires
        labels_in_range(w),
        entries_in_range(p),
        n <= 3,
    ensures
        entries_in_range(corner_order_upto(w, p, k, n)),
    decreases n,
{
    if n > 0 {
        lemma_corner_order_in_range(w, p, k, (n - 1) as nat);
        let q = n - 1;
        if corner_bit(k, q) == 0 {
            lemma_swap_keeps_range(corner_order_upto(w, p, k, (n - 1) as nat), w[q].0 as int, w[q].1 as int);
        }
    }
}

/// The packed corner orders of the chart `(w, p)`: its eight spectral
/// vertices, one byte per corner.
pub open spec fn corner_codes_spec(w: Word, p: [usize; 4], k: int) -> int {
    perm_code_spec(corner_order(w, p, k))
}

/// The packed orders at the eight cube corners of the chart `(w, p)`.
pub fn corner_codes(w: &Word, p: &[usize; 4]) -> (codes: [u8; 8])
    requires
        labels_in_range(*w),
        entries_in_range(*p),
    ensures
        forall|k: int| 0 <= k < 8 ==> codes[k] as int == corner_codes_spec(*w, *p, k),
{
    broadcast use vstd::array::group_array_axioms;
    let mut codes: [u8; 8] = [0u8; 8];
    let mut k: usize = 0;
    while k < 8
        invariant
            k <= 8,
            labels_in_range(*w),
            entries_in_range(*p),
            forall|j: int| 0 <= j < k ==> codes[j] as int == corner_codes_spec(*w, *p, j),
        decreases 8 - k,
    {
        let mut c: [usize; 4] = *p;
        let mut q: usize = 0;
        while q < 3
            invariant
                k < 8,
                q <= 3,
                labels_in_range(*w),
                entries_in_range(*p),
                c == corner_order_upto(*w, *p, k as int, q as nat),
            decreases 3 - q,
        {
            proof {
                lemma_corner_order_in_range(*w, *p, k as int, q as nat);
            }
            if corner(k, q) == 0 {
                let (i, j) = w[q];
                let t = c[i];
                let u = c[j];
                c[i] = u;
                c[j] = t;
                proof {
                    assert(c =~= corner_order_upto(*w, *p, k as int, (q + 1) as nat));
                }
            }
            q = q + 1;
        }
        proof {
            lemma_corner_order_in_range(*w, *p, k as int, 3);
        }
        codes[k] = perm_code(c);
        k = k + 1;
    }
    codes
}

/// The six orders of the three cube axes.
pub open spec fn axis_order(a: int, q: int) -> int {
    if a == 0 { q }
    else if a == 1 { if q == 0 { 0 } else if q == 1 { 2 } else { 1 } }
    else if a == 2 { if q == 0 { 1 } else if q == 1 { 0 } else { 2 } }
    else if a == 3 { if q == 0 { 1 } else if q == 1 { 2 } else { 0 } }
    else if a == 4 { if q == 0 { 2 } else if q == 1 { 0 } else { 1 } }
    else { if q == 0 { 2 } else if q == 1 { 1 } else { 0 } }
}

fn axis_at(a: usize, q: usize) -> (axis: usize)
    requires
        a < 6,
        q < 3,
    ensures
        axis as int == axis_order(a as int, q as int),
{
    if a == 0 { q }
    else if a == 1 { if q == 0 { 0 } else if q == 1 { 2 } else { 1 } }
    else if a == 2 { if q == 0 { 1 } else if q == 1 { 0 } else { 2 } }
    else if a == 3 { if q == 0 { 1 } else if q == 1 { 2 } else { 0 } }
    else if a == 4 { if q == 0 { 2 } else if q == 1 { 0 } else { 1 } }
    else { if q == 0 { 2 } else if q == 1 { 1 } else { 0 } }
}

/// Bit `q` of the reflection mask `f`.
pub open spec fn flip_bit(f: int, q: int) -> int {
    if q == 0 { f % 2 } else if q == 1 { (f / 2) % 2 } else { (f / 4) % 2 }
}

/// Exclusive or of two bits.
pub open spec fn xor_bit(x: int, y: int) -> int {
    if x == y { 0 } else { 1 }
}

/// Coordinate `q` of corner `k` after the cube automorphism `g`: axis
/// permutation `g / 8` followed by the reflections `x -> 1 - x` in mask `g % 8`.
pub open spec fn moved_bit(g: int, k: int, q: int) -> int {
    xor_bit(corner_bit(k, axis_order(g / 8, q)) as int, flip_bit(g % 8, q))
}

/// The corner that corner `k` is sent to by the cube automorphism `g`.
pub open spec fn moved_corner(g: int, k: int) -> int {
    corner_position(moved_bit(g, k, 0), moved_bit(g, k, 1), moved_bit(g, k, 2))
}

/// A corner table read through the cube automorphism `g` (one of the
/// 3! * 2^3 = 48 reparameterizations of `[0,1]^3`).
pub open spec fn moved_table(table: [u8; 8], g: int) -> [u8; 8] {
    [
        table[moved_corner(g, 0)],
        table[moved_corner(g, 1)],
        table[moved_corner(g, 2)],
        table[moved_corner(g, 3)],
        table[moved_corner(g, 4)],
        table[moved_corner(g, 5)],
        table[moved_corner(g, 6)],
        table[moved_corner(g, 7)],
    ]
}

/// Bit `x` reflected when bit `q` of the mask `f` is set.
fn flipped(x: usize, f: usize, q: usize) -> (r: usize)
    requires
        x < 2,
        f < 8,
        q < 3,
    ensures
        r as int == xor_bit(x as int, flip_bit(f as int, q as int)),
        r < 2,
{
    let r = x ^ ((f >> q) & 1);
    assert(r == (if x == (f >> q) & 1 { 0usize } else { 1usize }) && r < 2) by (bit_vector)
        requires x < 2usize, r == x ^ ((f >> q) & 1);
    assert(q == 0 ==> (f >> q) & 1 == f % 2) by (bit_vector);
    assert(q == 1 ==> (f >> q) & 1 == (f / 2) % 2) by (bit_vector);
    assert(q == 2 ==> (f >> q) & 1 == (f / 4) % 2) by (bit_vector);
    r
}

/// `x` precedes `y` lexicographically, comparing from entry `i` on.
pub open spec fn lex_less_from(x: [u8; 8], y: [u8; 8], i: int) -> bool
    decreases 8 - i,
{
    if i >= 8 || i < 0 {
        false
    } else if x[i] < y[i] {
        true
    } else if x[i] > y[i] {
        false
    } else {
        lex_less_from(x, y, i + 1)
    }
}

/// Strict lexicographic order on corner tables.
pub open spec fn lex_less(x: [u8; 8], y: [u8; 8]) -> bool {
    lex_less_from(x, y, 0)
}

pub open spec fn lex_le(x: [u8; 8], y: [u8; 8]) -> bool {
    lex_less(x, y) || x == y
}

proof fn lemma_lex_from_facts(x: [u8; 8], y: [u8; 8], z: [u8; 8], i: int)
    requires
        0 <= i <= 8,
    ensures
        lex_less_from(x, y, i) && lex_less_from(y, z, i) ==> lex_less_from(x, z, i),
        !lex_less_from(x, x, i),
        lex_less_from(x, y, i) ==> !lex_less_from(y, x, i),
        !lex_less_from(x, y, i) && !lex_less_from(y, x, i) ==> forall|j: int| i <= j < 8 ==> x[j] == y[j],
    decreases 8 - i,
{
    if i < 8 {
        lemma_lex_from_facts(x, y, z, i + 1);
    }
}

/// Lexicographic order facts: strict order is transitive and irreflexive,
/// and two tables neither of which precedes the other are equal.
pub proof fn lemma_lex_order(x: [u8; 8], y: [u8; 8], z: [u8; 8])
    ensures
        lex_less(x, y) && lex_less(y, z) ==> lex_less(x, z),
        !lex_less(x, x),
        lex_less(x, y) ==> !lex_less(y, x),
        !lex_less(x, y) && !lex_less(y, x) ==> x == y,
{
    broadcast use vstd::array::group_array_axioms;
    lemma_lex_from_facts(x, y, z, 0);
    if !lex_less(x, y) && !lex_less(y, x) {
        assert(x =~= y);
    }
}

/// Whether `x` precedes `y` lexicographically.
pub fn table_less(x: &[u8; 8], y: &[u8; 8]) -> (less: bool)
    ensures
        less == lex_less(*x, *y),
{
    let mut i: usize = 0;
    while i < 8
        invariant
            i <= 8,
            lex_less(*x, *y) == lex_less_from(*x, *y, i as int),
        decreases 8 - i,
    {
        if x[i] < y[i] {
            return true;
        }
        if x[i] > y[i] {
            return false;
        }
        i = i + 1;
    }
    false
}

/// `sig` is the lexicographically least of the 48 reparameterized readings
/// of `table`.
pub open spec fn is_least_reading(table: [u8; 8], sig: [u8; 8]) -> bool {
    &&& exists|g: int| 0 <= g < 48 && sig == moved_table(table, g)
    &&& forall|g: int| 0 <= g < 48 ==> lex_le(sig, #[trigger] moved_table(table, g))
}

/// The canonical representative of a corner table under the 48 cube
/// automorphisms: its lexicographically least reading.
pub open spec fn least_reading(table: [u8; 8]) -> [u8; 8] {
    choose|sig: [u8; 8]| is_least_reading(table, sig)
}

proof fn lemma_least_reading_unique(table: [u8; 8], sig: [u8; 8])
    requires
        is_least_reading(table, sig),
    ensures
        least_reading(table) == sig,
{
    let other = least_reading(table);
    assert(is_least_reading(table, other));
    let g1 = choose|g: int| 0 <= g < 48 && sig == moved_table(table, g);
    let g2 = choose|g: int| 0 <= g < 48 && other == moved_table(table, g);
    assert(lex_le(sig, moved_table(table, g2)));
    assert(lex_le(other, moved_table(table, g1)));
    lemma_lex_order(sig, other, sig);
}

/// The packed corner orders of the chart `(w, p)`.
pub open spec fn corner_table(w: Word, p: [usize; 4]) -> [u8; 8] {
    [
        corner_codes_spec(w, p, 0) as u8,
        corner_codes_spec(w, p, 1) as u8,
        corner_codes_spec(w, p, 2) as u8,
        corner_codes_spec(w, p, 3) as u8,
        corner_codes_spec(w, p, 4) as u8,
        corner_codes_spec(w, p, 5) as u8,
        corner_codes_spec(w, p, 6) as u8,
        corner_codes_spec(w, p, 7) as u8,
    ]
}

/// The image class signature of the chart `(w, p)`: the least reading of its
/// corner table over all reparameterizations of the parameter cube.
#[verifier::opaque]
pub open spec fn chart_signature(w: Word, p: [usize; 4]) -> [u8; 8] {
    least_reading(corner_table(w, p))
}

/// The exact-quotient signature of the chart `(w, p)`: the lexicographically
/// least of its corner tables under the 48 automorphisms of the parameter
/// cube (axis permutations and reflections `x -> 1 - x`).
pub fn signature(w: &Word, p: &[usize; 4]) -> (sig: [u8; 8])
    requires
        labels_in_range(*w),
        entries_in_range(*p),
    ensures
        sig == chart_signature(*w, *p),
        is_least_reading(corner_table(*w, *p), sig),
{
    proof {
        reveal(chart_signature);
    }
    broadcast use vstd::array::group_array_axioms;
    let corners = corner_codes(w, p);
    let ghost table = corner_table(*w, *p);
    proof {
        assert forall|k: int| 0 <= k < 8 implies corners[k] == table[k] by {
            lemma_corner_order_in_range(*w, *p, k, 3);
        }
        assert(corners =~= table);
    }
    let mut best: [u8; 8] = [u8::MAX, u8::MAX, u8::MAX, u8::MAX, u8::MAX, u8::MAX, u8::MAX, u8::MAX];
    assert(best =~= max_table());
    let mut a: usize = 0;
    while a < 6
        invariant
            a <= 6,
            corners == table,
            best == max_table() || exists|g: int| 0 <= g < 8 * a && best == moved_table(table, g),
            forall|g: int| 0 <= g < 8 * a ==> lex_le(best, #[trigger] moved_table(table, g)),
        decreases 6 - a,
    {
        let mut flip: usize = 0;
        while flip < 8
            invariant
                a < 6,
                flip <= 8,
                corners == table,
                best == max_table() || exists|g: int| 0 <= g < 8 * a + flip && best == moved_table(table, g),
                forall|g: int| 0 <= g < 8 * a + flip ==> lex_le(best, #[trigger] moved_table(table, g)),
            decreases 8 - flip,
        {
            let ghost g: int = 8 * a + flip;
            assert(g / 8 == a && g % 8 == flip);
            let mut candidate: [u8; 8] = [0u8; 8];
            let mut k: usize = 0;
            while k < 8
                invariant
                    a < 6,
                    flip < 8,
                    k <= 8,
                    g == 8 * a + flip,
                    g / 8 == a && g % 8 == flip,
                    corners == table,
                    forall|j: int| 0 <= j < k ==> candidate[j] == table[moved_corner(g, j)],
                decreases 8 - k,
            {
                let b0 = flipped(corner(k, axis_at(a, 0)), flip, 0);
                let b1 = flipped(corner(k, axis_at(a, 1)), flip, 1);
                let b2 = flipped(corner(k, axis_at(a, 2)), flip, 2);
                let index = corner_index([b0, b1, b2]);
                proof {
                    assert(index as int == moved_corner(g, k as int));
                }
                candidate[k] = corners[index];
                k = k + 1;
            }
            proof {
                assert(candidate =~= moved_table(table, g));
            }
            if table_less(&candidate, &best) {
                proof {
                    assert forall|h: int| 0 <= h < g implies lex_le(candidate, #[trigger] moved_table(table, h)) by {
                        lemma_lex_order(candidate, best, moved_table(table, h));
                    }
                    lemma_lex_order(candidate, candidate, candidate);
                }
                best = candidate;
            } else {
                proof {
                    lemma_lex_order(best, candidate, best);
                    if best == max_table() && best != candidate {
                        // the all-maximal table is never preceded
                        lemma_max_table_is_last(candidate);
                        assert(false);
                    }
                }
            }
            flip = flip + 1;
        }
        a = a + 1;
    }
    proof {
        if best == max_table() && !(exists|g: int| 0 <= g < 48 && best == moved_table(table, g)) {
            assert(lex_le(best, moved_table(table, 0)));
            lemma_lex_order(best, moved_table(table, 0), best);
            lemma_max_table_is_last(moved_table(table, 0));
        }
        lemma_least_reading_unique(table, best);
    }
    best
}

/// The table of all-maximal bytes, the start of the least-reading search.
pub open spec fn max_table() -> [u8; 8] {
    [255, 255, 255, 255, 255, 255, 255, 255]
}

proof fn lemma_max_table_is_last(y: [u8; 8])
    ensures
        lex_less(max_table(), y) == false,
{
    lemma_max_from(y, 0);
}

proof fn lemma_max_from(y: [u8; 8], i: int)
    requires
        0 <= i <= 8,
    ensures
        !lex_less_from(max_table(), y, i),
    decreases 8 - i,
{
    if i < 8 {
        lemma_max_from(y, i + 1);
    }
}

/// The first occurrences among the first `n` entries of `s`, in order.
pub open spec fn first_occurrences(s: Seq<[u8; 8]>, n: nat) -> Seq<[u8; 8]>
    decreases n,
{
    if n == 0 {
        Seq::empty()
    } else {
        let before = first_occurrences(s, (n - 1) as nat);
        if before.contains(s[n - 1]) {
            before
        } else {
            before.push(s[n - 1])
        }
    }
}

/// Signatures of all atlas charts, word-major: entry `24 w + p` belongs to
/// word `w` of the atlas and order `p` of the Heap table.
pub open spec fn atlas_signatures() -> Seq<[u8; 8]> {
    let words = interior_words_spec();
    Seq::new(words.len() * 24, |t: int| chart_signature(words[t / 24], heap_table(t % 24)))
}

/// The distinct chart signatures, numbered by first appearance.
pub open spec fn class_signatures() -> Seq<[u8; 8]> {
    first_occurrences(atlas_signatures(), atlas_signatures().len())
}

/// The image class of chart `(w, p)`: the number of its signature.
pub open spec fn chart_class(w: int, p: int) -> int {
    class_signatures().index_of(atlas_signatures()[24 * w + p])
}

/// Exact quotient of the interior atlas: for every word and Heap order the
/// number of its image class, and which classes occur in the sixteen hot
/// words.
pub struct InteriorQuotient {
    pub class: Vec<[u16; 24]>,
    pub hot: Vec<bool>,
}

impl InteriorQuotient {
    /// The quotient as defined by the atlas: one row per atlas word, class
    /// numbers by first appearance of the signature, hot exactly for the
    /// classes met by the first sixteen words.
    pub open spec fn is_atlas_quotient(&self) -> bool {
        &&& self.class@.len() == interior_words_spec().len()
        &&& forall|w: int, p: int| 0 <= w < self.class@.len() && 0 <= p < 24 ==> self.class@[w][p] as int == chart_class(w, p)
        &&& self.hot@.len() == class_signatures().len()
        &&& forall|c: int| 0 <= c < self.hot@.len() ==> (self.hot@[c] <==> exists|w: int, p: int| 0 <= w < 16 && 0 <= p < 24 && chart_class(w, p) == c)
    }
}

proof fn lemma_appended_words_len(t: nat)
    ensures
        appended_words(t).len() <= t,
    decreases t,
{
    if t > 0 {
        lemma_appended_words_len((t - 1) as nat);
    }
}

pub(crate) proof fn lemma_first_occurrences_facts(s: Seq<[u8; 8]>, n: nat)
    requires
        n <= s.len(),
    ensures
        first_occurrences(s, n).no_duplicates(),
        first_occurrences(s, n).len() <= n,
        forall|t: int| 0 <= t < n ==> first_occurrences(s, n).contains(s[t]),
        forall|i: int| 0 <= i < first_occurrences(s, n).len() ==> exists|t: int| 0 <= t < n && s[t] == #[trigger] first_occurrences(s, n)[i],
    decreases n,
{
    if n > 0 {
        let before = first_occurrences(s, (n - 1) as nat);
        lemma_first_occurrences_facts(s, (n - 1) as nat);
        let now = first_occurrences(s, n);
        assert forall|t: int| 0 <= t < n implies now.contains(s[t]) by {
            if t < n - 1 {
                let i = choose|i: int| 0 <= i < before.len() && before[i] == s[t];
                assert(now[i] == s[t]);
            } else if !before.contains(s[t]) {
                assert(now[before.len() as int] == s[t]);
            }
        }
        assert forall|i: int| 0 <= i < now.len() implies exists|t: int| 0 <= t < n && s[t] == #[trigger] now[i] by {
            if i < before.len() {
                assert(now[i] == before[i]);
            } else {
                assert(now[i] == s[n - 1]);
            }
        }
    }
}

pub(crate) proof fn lemma_first_occurrences_extend(s: Seq<[u8; 8]>, n: nat, m: nat)
    requires
        n <= m <= s.len(),
    ensures
        first_occurrences(s, m).len() >= first_occurrences(s, n).len(),
        forall|i: int| 0 <= i < first_occurrences(s, n).len() ==> #[trigger] first_occurrences(s, m)[i] == first_occurrences(s, n)[i],
    decreases m - n,
{
    if m > n {
        lemma_first_occurrences_extend(s, n, (m - 1) as nat);
    }
}

/// Position of `sig` in `list`, if any.
fn find_signature(list: &Vec<[u8; 8]>, sig: &[u8; 8]) -> (index: Option<usize>)
    ensures
        match index {
            Some(i) => i < list@.len() && list@[i as int] == *sig,
            None => !list@.contains(*sig),
        },
{
    let mut i: usize = 0;
    while i < list.len()
        invariant
            i <= list@.len(),
            forall|j: int| 0 <= j < i ==> list@[j] != *sig,
        decreases list@.len() - i,
    {
        proof {
            lemma_lex_order(list@[i as int], *sig, *sig);
            lemma_lex_order(*sig, list@[i as int], *sig);
        }
        if !table_less(&list[i], sig) && !table_less(sig, &list[i]) {
            return Some(i);
        }
        i = i + 1;
    }
    None
}

/// Builds the exact quotient of the interior atlas (every atlas word crossed
/// with every Heap order) by the reparameterizations of the parameter cube.
pub fn interior_quotient() -> (quotient: InteriorQuotient)
    ensures
        quotient.is_atlas_quotient(),
{
    let words = interior_planes();
    let perms = perms24();
    let ghost scan = atlas_signatures();
    proof {
        lemma_appended_words_len(216);
        lemma_interior_words_are_the_tree_words();
        assert forall|w: int| 0 <= w < words@.len() implies labels_in_range(#[trigger] words@[w]) by {
            let k0 = choose|k: int| 0 <= k < 6 && words@[w][0] == plane(k);
            let k1 = choose|k: int| 0 <= k < 6 && words@[w][1] == plane(k);
            let k2 = choose|k: int| 0 <= k < 6 && words@[w][2] == plane(k);
        }
        crate::permutations::lemma_heap_table_enumerates_permutations();
    }
    let mut signatures: Vec<[u8; 8]> = Vec::new();
    let mut class: Vec<[u16; 24]> = Vec::new();
    let mut w: usize = 0;
    while w < words.len()
        invariant
            words@ == interior_words_spec(),
            words@.len() <= 232,
            perms@ == Seq::new(24, |j: int| heap_table(j)),
            forall|v: int| 0 <= v < words@.len() ==> labels_in_range(#[trigger] words@[v]),
            forall|j: int| 0 <= j < 24 ==> is_perm4(#[trigger] heap_table(j)),
            scan == atlas_signatures(),
            w <= words@.len(),
            signatures@ == first_occurrences(scan, (24 * w) as nat),
            class@.len() == w,
            forall|v: int, p: int| 0 <= v < w && 0 <= p < 24 ==> (class@[v][p] as int) < signatures@.len() && signatures@[class@[v][p] as int] == scan[24 * v + p],
        decreases words@.len() - w,
    {
        let mut row: [u16; 24] = [0u16; 24];
        let mut p: usize = 0;
        while p < 24
            invariant
                words@ == interior_words_spec(),
                words@.len() <= 232,
                perms@ == Seq::new(24, |j: int| heap_table(j)),
                forall|v: int| 0 <= v < words@.len() ==> labels_in_range(#[trigger] words@[v]),
                forall|j: int| 0 <= j < 24 ==> is_perm4(#[trigger] heap_table(j)),
                scan == atlas_signatures(),
                w < words@.len(),
                p <= 24,
                signatures@ == first_occurrences(scan, (24 * w + p) as nat),
                class@.len() == w,
                forall|v: int, q: int| 0 <= v < w && 0 <= q < 24 ==> (class@[v][q] as int) < signatures@.len() && signatures@[class@[v][q] as int] == scan[24 * v + q],
                forall|q: int| 0 <= q < p ==> (row[q] as int) < signatures@.len() && signatures@[row[q] as int] == scan[24 * w + q],
            decreases 24 - p,
        {
            let ghost t: int = 24 * w + p;
            assert(t / 24 == w && t % 24 == p);
            assert(is_perm4(perms@[p as int]));
            let sig = signature(&words[w], &perms[p]);
            assert(sig == scan[t]);
            proof {
                lemma_first_occurrences_facts(scan, t as nat);
                lemma_first_occurrences_extend(scan, t as nat, (t + 1) as nat);
            }
            let id = match find_signature(&signatures, &sig) {
                Some(id) => id,
                None => {
                    signatures.push(sig);
                    signatures.len() - 1
                },
            };
            assert(signatures@ == first_occurrences(scan, (t + 1) as nat));
            assert(signatures@.len() <= t + 1);
            row[p] = id as u16;
            p = p + 1;
        }
        class.push(row);
        w = w + 1;
    }
    let ghost total = (24 * words@.len()) as nat;
    assert(scan.len() == total);
    let mut hot: Vec<bool> = Vec::new();
    let mut c: usize = 0;
    while c < signatures.len()
        invariant
            c <= signatures@.len(),
            hot@.len() == c,
            forall|i: int| 0 <= i < c ==> !hot@[i],
        decreases signatures@.len() - c,
    {
        hot.push(false);
        c = c + 1;
    }
    proof {
        lemma_first_occurrences_facts(scan, total);
    }
    let mut v: usize = 0;
    while v < 16
        invariant
            v <= 16,
            words@ == interior_words_spec(),
            16 <= words@.len(),
            class@.len() == words@.len(),
            scan == atlas_signatures(),
            signatures@ == class_signatures(),
            signatures@.no_duplicates(),
            hot@.len() == signatures@.len(),
            forall|u: int, q: int| 0 <= u < class@.len() && 0 <= q < 24 ==> (class@[u][q] as int) < signatures@.len() && signatures@[class@[u][q] as int] == scan[24 * u + q],
            forall|i: int| 0 <= i < hot@.len() ==> (hot@[i] <==> exists|u: int, q: int| 0 <= u < v && 0 <= q < 24 && class@[u][q] as int == i),
        decreases 16 - v,
    {
        let row = class[v];
        let mut q: usize = 0;
        while q < 24
            invariant
                v < 16,
                q <= 24,
                row == class@[v as int],
                class@.len() >= 16,
                hot@.len() == signatures@.len(),
                forall|u: int, r: int| 0 <= u < class@.len() && 0 <= r < 24 ==> (class@[u][r] as int) < signatures@.len(),
                forall|i: int| 0 <= i < hot@.len() ==> (hot@[i] <==> (exists|u: int, r: int| 0 <= u < v && 0 <= r < 24 && class@[u][r] as int == i) || exists|r: int| 0 <= r < q && row[r] as int == i),
            decreases 24 - q,
        {
            hot.set(row[q] as usize, true);
            q = q + 1;
        }
        v = v + 1;
    }
    let quotient = InteriorQuotient { class, hot };
    proof {
        assert forall|u: int, q: int| 0 <= u < quotient.class@.len() && 0 <= q < 24 implies quotient.class@[u][q] as int == chart_class(u, q) by {
            let i = quotient.class@[u][q] as int;
            assert(signatures@[i] == scan[24 * u + q]);
            assert(class_signatures().contains(scan[24 * u + q]));
            let j = class_signatures().index_of(scan[24 * u + q]);
            assert(signatures@[j] == scan[24 * u + q]);
        }
        assert(quotient.class@.len() == interior_words_spec().len());
        assert(quotient.hot@.len() == class_signatures().len());
        assert forall|c: int| 0 <= c < quotient.hot@.len() implies (quotient.hot@[c] <==> exists|u: int, q: int| 0 <= u < 16 && 0 <= q < 24 && chart_class(u, q) == c) by {
            if quotient.hot@[c] {
                let (u, q) = choose|u: int, q: int| 0 <= u < 16 && 0 <= q < 24 && quotient.class@[u][q] as int == c;
                assert(chart_class(u, q) == c);
            }
            if exists|u: int, q: int| 0 <= u < 16 && 0 <= q < 24 && chart_class(u, q) == c {
                let (u, q) = choose|u: int, q: int| 0 <= u < 16 && 0 <= q < 24 && chart_class(u, q) == c;
                assert(quotient.class@[u][q] as int == c);
            }
        }
    }
    quotient
}

/// Size bounds of the atlas and its quotient: at least the sixteen head
/// words, at most all 16 + 216 candidate words, and no more classes than
/// charts.
pub proof fn lemma_quotient_sizes()
    ensures
        16 <= interior_words_spec().len() <= 232,
        class_signatures().len() <= 24 * interior_words_spec().len(),
        class_signatures().no_duplicates(),
{
    lemma_appended_words_len(216);
    lemma_first_occurrences_facts(atlas_signatures(), atlas_signatures().len());
}

/// Two charts of the atlas fall in the same image class exactly when their
/// signatures (least corner tables under the cube automorphisms) agree.
pub proof fn lemma_same_class_iff_same_signature(w1: int, p1: int, w2: int, p2: int)
    requires
        0 <= w1 < interior_words_spec().len(),
        0 <= w2 < interior_words_spec().len(),
        0 <= p1 < 24,
        0 <= p2 < 24,
    ensures
        (chart_class(w1, p1) == chart_class(w2, p2)) <==> (chart_signature(interior_words_spec()[w1], heap_table(p1))
            == chart_signature(interior_words_spec()[w2], heap_table(p2))),
        0 <= chart_class(w1, p1) < class_signatures().len(),
{
    let scan = atlas_signatures();
    let sigs = class_signatures();
    let (t1, t2) = (24 * w1 + p1, 24 * w2 + p2);
    assert(t1 / 24 == w1 && t1 % 24 == p1);
    assert(t2 / 24 == w2 && t2 % 24 == p2);
    lemma_first_occurrences_facts(scan, scan.len());
    assert(sigs.contains(scan[t1]));
    assert(sigs.contains(scan[t2]));
    let i1 = sigs.index_of(scan[t1]);
    let i2 = sigs.index_of(scan[t2]);
    assert(sigs[i1] == scan[t1] && sigs[i2] == scan[t2]);
}

/// The permutation table, the interior atlas and its exact quotient.
pub struct Tables {
    pub perms: Vec<[usize; 4]>,
    pub words: Vec<Word>,
    pub quotient: InteriorQuotient,
}

/// Builds every lookup table the interior rungs use: the 24 Heap orders,
/// the ordered spanning-tree words, and the image-class quotient.
pub fn init_tables() -> (tables: Tables)
    ensures
        tables.perms@ == Seq::new(24, |j: int| heap_table(j)),
        tables.words@ == interior_words_spec(),
        tables.quotient.is_atlas_quotient(),
{
    let perms = perms24();
    let words = interior_planes();
    let quotient = interior_quotient();
    Tables { perms, words, quotient }
}

/// Corners and their coordinates determine each other.
proof fn lemma_corner_roundtrip()
    ensures
        forall|k: int| 0 <= k < 8 ==> #[trigger] corner_position(corner_bit(k, 0) as int, corner_bit(k, 1) as int, corner_bit(k, 2) as int) == k,
        forall|b0: int, b1: int, b2: int, q: int| 0 <= b0 < 2 && 0 <= b1 < 2 && 0 <= b2 < 2 && 0 <= q < 3 ==>
            #[trigger] corner_bit(corner_position(b0, b1, b2), q) as int == if q == 0 { b0 } else if q == 1 { b1 } else { b2 },
        forall|b0: int, b1: int, b2: int| 0 <= b0 < 2 && 0 <= b1 < 2 && 0 <= b2 < 2 ==> 0 <= #[trigger] corner_position(b0, b1, b2) < 8,
{
}

/// The corner reached from corner `k` by reading axis `s_q` into
/// coordinate `q` and reflecting coordinate `q` when `f_q` is set.
pub open spec fn cube_map(s: (int, int, int), f: (int, int, int), k: int) -> int {
    corner_position(
        xor_bit(corner_bit(k, s.0) as int, f.0),
        xor_bit(corner_bit(k, s.1) as int, f.1),
        xor_bit(corner_bit(k, s.2) as int, f.2),
    )
}

/// The axis order of automorphism `g` as a triple.
pub open spec fn axes_of(g: int) -> (int, int, int) {
    (axis_order(g / 8, 0), axis_order(g / 8, 1), axis_order(g / 8, 2))
}

/// The reflection mask of automorphism `g` as a triple of bits.
pub open spec fn flips_of(g: int) -> (int, int, int) {
    (flip_bit(g % 8, 0), flip_bit(g % 8, 1), flip_bit(g % 8, 2))
}

/// A triple listing each axis `0, 1, 2` once.
pub open spec fn is_axis_perm(s: (int, int, int)) -> bool {
    &&& 0 <= s.0 < 3 && 0 <= s.1 < 3 && 0 <= s.2 < 3
    &&& s.0 != s.1 && s.0 != s.2 && s.1 != s.2
}

/// A triple of bits.
pub open spec fn is_bits(f: (int, int, int)) -> bool {
    0 <= f.0 < 2 && 0 <= f.1 < 2 && 0 <= f.2 < 2
}

/// Entry `q` of a triple.
pub open spec fn at(s: (int, int, int), q: int) -> int {
    if q == 0 { s.0 } else if q == 1 { s.1 } else { s.2 }
}

/// The automorphism index with axis order `s` and reflections `f`.
pub open spec fn cube_index(s: (int, int, int), f: (int, int, int)) -> int {
    let a = if s == (0int, 1int, 2int) { 0int }
        else if s == (0int, 2int, 1int) { 1 }
        else if s == (1int, 0int, 2int) { 2 }
        else if s == (1int, 2int, 0int) { 3 }
        else if s == (2int, 0int, 1int) { 4 }
        else { 5 };
    8 * a + f.0 + 2 * f.1 + 4 * f.2
}

/// Every axis order and reflection mask is one of the 48 automorphisms.
proof fn lemma_cube_index(s: (int, int, int), f: (int, int, int))
    requires
        is_axis_perm(s),
        is_bits(f),
    ensures
        0 <= cube_index(s, f) < 48,
        axes_of(cube_index(s, f)) == s,
        flips_of(cube_index(s, f)) == f,
{
    let g = cube_index(s, f);
    let a = g / 8;
    assert(g % 8 == f.0 + 2 * f.1 + 4 * f.2);
}

/// Automorphism `g` moves corners by its axis order and reflections.
proof fn lemma_moved_corner_is_cube_map(g: int, k: int)
    requires
        0 <= g < 48,
    ensures
        moved_corner(g, k) == cube_map(axes_of(g), flips_of(g), k),
        is_axis_perm(axes_of(g)),
        is_bits(flips_of(g)),
{
}

/// Reading through `(t, e)` after `(s, f)`: axes compose and reflections
/// add up.
proof fn lemma_cube_map_compose(s: (int, int, int), f: (int, int, int), t: (int, int, int), e: (int, int, int), k: int)
    requires
        is_axis_perm(s),
        is_bits(f),
        is_axis_perm(t),
        is_bits(e),
        0 <= k < 8,
    ensures
        cube_map(t, e, cube_map(s, f, k)) == cube_map(
            (at(s, t.0), at(s, t.1), at(s, t.2)),
            (xor_bit(at(f, t.0), e.0), xor_bit(at(f, t.1), e.1), xor_bit(at(f, t.2), e.2)),
            k,
        ),
{
    lemma_corner_roundtrip();
    let b0 = xor_bit(corner_bit(k, s.0) as int, f.0);
    let b1 = xor_bit(corner_bit(k, s.1) as int, f.1);
    let b2 = xor_bit(corner_bit(k, s.2) as int, f.2);
    let c = corner_position(b0, b1, b2);
    assert(corner_bit(c, 0) as int == b0 && corner_bit(c, 1) as int == b1 && corner_bit(c, 2) as int == b2);
}

/// Reading a table through `h` and then through `g` is reading it through
/// one automorphism.
proof fn lemma_readings_compose(table: [u8; 8], h: int, g: int) -> (c: int)
    requires
        0 <= h < 48,
        0 <= g < 48,
    ensures
        0 <= c < 48,
        moved_table(moved_table(table, h), g) == moved_table(table, c),
{
    broadcast use vstd::array::group_array_axioms;
    let (s, f) = (axes_of(h), flips_of(h));
    let (t, e) = (axes_of(g), flips_of(g));
    lemma_moved_corner_is_cube_map(h, 0);
    lemma_moved_corner_is_cube_map(g, 0);
    let sc = (at(t, s.0), at(t, s.1), at(t, s.2));
    let fc = (xor_bit(at(e, s.0), f.0), xor_bit(at(e, s.1), f.1), xor_bit(at(e, s.2), f.2));
    lemma_cube_index(sc, fc);
    let c = cube_index(sc, fc);
    assert forall|k: int| 0 <= k < 8 implies moved_corner(h, moved_corner(g, k)) == moved_corner(c, k) by {
        lemma_moved_corner_is_cube_map(g, k);
        lemma_moved_corner_is_cube_map(h, moved_corner(g, k));
        lemma_moved_corner_is_cube_map(c, k);
        lemma_cube_map_compose(t, e, s, f, k);
    }
    assert(moved_table(moved_table(table, h), g) =~= moved_table(table, c));
    c
}

/// Every reading of a table is also a reading of the table read through
/// `h`.
proof fn lemma_readings_undo(table: [u8; 8], h: int, g: int) -> (c: int)
    requires
        0 <= h < 48,
        0 <= g < 48,
    ensures
        0 <= c < 48,
        moved_table(moved_table(table, h), c) == moved_table(table, g),
{
    broadcast use vstd::array::group_array_axioms;
    let (s, f) = (axes_of(h), flips_of(h));
    let (t, e) = (axes_of(g), flips_of(g));
    lemma_moved_corner_is_cube_map(h, 0);
    lemma_moved_corner_is_cube_map(g, 0);
    let inv = |r: int| if s.0 == r { 0int } else if s.1 == r { 1int } else { 2int };
    let u = (at(t, inv(0)), at(t, inv(1)), at(t, inv(2)));
    let d = (xor_bit(at(e, inv(0)), at(f, inv(0))), xor_bit(at(e, inv(1)), at(f, inv(1))), xor_bit(at(e, inv(2)), at(f, inv(2))));
    assert(is_axis_perm(u));
    assert(at(u, s.0) == t.0 && at(u, s.1) == t.1 && at(u, s.2) == t.2);
    assert(xor_bit(at(d, s.0), f.0) == e.0 && xor_bit(at(d, s.1), f.1) == e.1 && xor_bit(at(d, s.2), f.2) == e.2);
    lemma_cube_index(u, d);
    let c = cube_index(u, d);
    assert forall|k: int| 0 <= k < 8 implies moved_corner(h, moved_corner(c, k)) == moved_corner(g, k) by {
        lemma_moved_corner_is_cube_map(c, k);
        lemma_moved_corner_is_cube_map(h, moved_corner(c, k));
        lemma_moved_corner_is_cube_map(g, k);
        lemma_cube_map_compose(u, d, s, f, k);
    }
    assert(moved_table(moved_table(table, h), c) =~= moved_table(table, g));
    c
}

/// Among the first `n >= 1` readings of a table there is a least one.
proof fn lemma_least_of_first_readings(table: [u8; 8], n: int) -> (g0: int)
    requires
        1 <= n <= 48,
    ensures
        0 <= g0 < n,
        forall|g: int| 0 <= g < n ==> lex_le(moved_table(table, g0), #[trigger] moved_table(table, g)),
    decreases n,
{
    if n == 1 {
        0
    } else {
        let g1 = lemma_least_of_first_readings(table, n - 1);
        let last = moved_table(table, n - 1);
        let best = moved_table(table, g1);
        lemma_lex_order(last, best, last);
        if lex_less(last, best) {
            assert forall|g: int| 0 <= g < n implies lex_le(last, #[trigger] moved_table(table, g)) by {
                if g < n - 1 {
                    lemma_lex_order(last, best, moved_table(table, g));
                }
            }
            n - 1
        } else {
            lemma_lex_order(best, last, best);
            g1
        }
    }
}

/// Every corner table has a least reading.
proof fn lemma_least_reading_exists(table: [u8; 8])
    ensures
        is_least_reading(table, least_reading(table)),
{
    let g0 = lemma_least_of_first_readings(table, 48);
    assert(is_least_reading(table, moved_table(table, g0)));
}

/// A chart signature does not depend on how the parameter cube is read:
/// the least reading of a corner table is also the least reading of the
/// table read through any of the 48 automorphisms, so charts whose corner
/// tables differ by a reparameterization share their class.
pub proof fn lemma_least_reading_invariant(table: [u8; 8], h: int)
    requires
        0 <= h < 48,
    ensures
        least_reading(moved_table(table, h)) == least_reading(table),
{
    let moved = moved_table(table, h);
    let sig = least_reading(table);
    lemma_least_reading_exists(table);
    let g0 = choose|g: int| 0 <= g < 48 && sig == moved_table(table, g);
    lemma_readings_undo(table, h, g0);
    assert forall|g: int| 0 <= g < 48 implies lex_le(sig, #[trigger] moved_table(moved, g)) by {
        lemma_readings_compose(table, h, g);
    }
    assert(is_least_reading(moved, sig));
    lemma_least_reading_unique(moved, sig);
}

/// Two charts of the atlas whose corner tables differ by a
/// reparameterization of the parameter cube fall in the same image class.
pub proof fn lemma_reparameterized_charts_share_class(w1: int, p1: int, w2: int, p2: int, h: int)
    requires
        0 <= w1 < interior_words_spec().len(),
        0 <= w2 < interior_words_spec().len(),
        0 <= p1 < 24,
        0 <= p2 < 24,
        0 <= h < 48,
        corner_table(interior_words_spec()[w2], heap_table(p2)) == moved_table(corner_table(interior_words_spec()[w1], heap_table(p1)), h),
    ensures
        chart_class(w1, p1) == chart_class(w2, p2),
{
    reveal(chart_signature);
    lemma_least_reading_invariant(corner_table(interior_words_spec()[w1], heap_table(p1)), h);
    lemma_same_class_iff_same_signature(w1, p1, w2, p2);
}

/// Two charts whose corner codes agree through the automorphism `g`
/// (corner `k` of the second carries the code of corner `c.k` of the
/// first, where `c.k` is the corner that `g` sends `k` to) have the same
/// signature.
pub(crate) proof fn lemma_charts_agree_through(w1: Word, p1: [usize; 4], w2: Word, p2: [usize; 4], g: int, c: (int, int, int, int, int, int, int, int))
    requires
        0 <= g < 48,
        moved_corner(g, 0) == c.0 && corner_codes_spec(w2, p2, 0) == corner_codes_spec(w1, p1, c.0),
        0 <= corner_codes_spec(w1, p1, 0) < 256 && 0 <= corner_codes_spec(w2, p2, 0) < 256,
        moved_corner(g, 1) == c.1 && corner_codes_spec(w2, p2, 1) == corner_codes_spec(w1, p1, c.1),
        0 <= corner_codes_spec(w1, p1, 1) < 256 && 0 <= corner_codes_spec(w2, p2, 1) < 256,
        moved_corner(g, 2) == c.2 && corner_codes_spec(w2, p2, 2) == corner_codes_spec(w1, p1, c.2),
        0 <= corner_codes_spec(w1, p1, 2) < 256 && 0 <= corner_codes_spec(w2, p2, 2) < 256,
        moved_corner(g, 3) == c.3 && corner_codes_spec(w2, p2, 3) == corner_codes_spec(w1, p1, c.3),
        0 <= corner_codes_spec(w1, p1, 3) < 256 && 0 <= corner_codes_spec(w2, p2, 3) < 256,
        moved_corner(g, 4) == c.4 && corner_codes_spec(w2, p2, 4) == corner_codes_spec(w1, p1, c.4),
        0 <= corner_codes_spec(w1, p1, 4) < 256 && 0 <= corner_codes_spec(w2, p2, 4) < 256,
        moved_corner(g, 5) == c.5 && corner_codes_spec(w2, p2, 5) == corner_codes_spec(w1, p1, c.5),
        0 <= corner_codes_spec(w1, p1, 5) < 256 && 0 <= corner_codes_spec(w2, p2, 5) < 256,
        moved_corner(g, 6) == c.6 && corner_codes_spec(w2, p2, 6) == corner_codes_spec(w1, p1, c.6),
        0 <= corner_codes_spec(w1, p1, 6) < 256 && 0 <= corner_codes_spec(w2, p2, 6) < 256,
        moved_corner(g, 7) == c.7 && corner_codes_spec(w2, p2, 7) == corner_codes_spec(w1, p1, c.7),
        0 <= corner_codes_spec(w1, p1, 7) < 256 && 0 <= corner_codes_spec(w2, p2, 7) < 256,
    ensures
        chart_signature(w2, p2) == chart_signature(w1, p1),
{
    reveal(chart_signature);
    broadcast use vstd::array::group_array_axioms;
    let t1 = corner_table(w1, p1);
    let t2 = corner_table(w2, p2);
    assert(t1[c.0] as int == corner_codes_spec(w1, p1, c.0));
    assert(t1[c.1] as int == corner_codes_spec(w1, p1, c.1));
    assert(t1[c.2] as int == corner_codes_spec(w1, p1, c.2));
    assert(t1[c.3] as int == corner_codes_spec(w1, p1, c.3));
    assert(t1[c.4] as int == corner_codes_spec(w1, p1, c.4));
    assert(t1[c.5] as int == corner_codes_spec(w1, p1, c.5));
    assert(t1[c.6] as int == corner_codes_spec(w1, p1, c.6));
    assert(t1[c.7] as int == corner_codes_spec(w1, p1, c.7));
    assert(t2 =~= moved_table(t1, g));
    lemma_least_reading_invariant(t1, g);
}

/// The cube of an entry.
pub open spec fn cube(x: int) -> int {
    x * x * x
}

/// The sum of the cubes of a corner table's entries: it depends only on
/// which codes occur, not on their corners.
pub open spec fn table_weight(t: [u8; 8]) -> int {
    cube(t[0] as int) + cube(t[1] as int) + cube(t[2] as int) + cube(t[3] as int)
        + cube(t[4] as int) + cube(t[5] as int) + cube(t[6] as int) + cube(t[7] as int)
}

/// Every reading of a corner table has the table's weight.
pub proof fn lemma_reading_keeps_weight(t: [u8; 8], g: int)
    requires
        0 <= g < 48,
    ensures
        table_weight(moved_table(t, g)) == table_weight(t),
{
    broadcast use vstd::array::group_array_axioms;
    if g == 0 { assert(moved_table(t, 0) =~= [t[0], t[1], t[2], t[3], t[4], t[5], t[6], t[7]]); } else
    if g == 1 { assert(moved_table(t, 1) =~= [t[1], t[0], t[4], t[5], t[2], t[3], t[7], t[6]]); } else
    if g == 2 { assert(moved_table(t, 2) =~= [t[2], t[4], t[0], t[6], t[1], t[7], t[3], t[5]]); } else
    if g == 3 { assert(moved_table(t, 3) =~= [t[4], t[2], t[1], t[7], t[0], t[6], t[5], t[3]]); } else
    if g == 4 { assert(moved_table(t, 4) =~= [t[3], t[5], t[6], t[0], t[7], t[1], t[2], t[4]]); } else
    if g == 5 { assert(moved_table(t, 5) =~= [t[5], t[3], t[7], t[1], t[6], t[0], t[4], t[2]]); } else
    if g == 6 { assert(moved_table(t, 6) =~= [t[6], t[7], t[3], t[2], t[5], t[4], t[0], t[1]]); } else
    if g == 7 { assert(moved_table(t, 7) =~= [t[7], t[6], t[5], t[4], t[3], t[2], t[1], t[0]]); } else
    if g == 8 { assert(moved_table(t, 8) =~= [t[0], t[1], t[3], t[2], t[5], t[4], t[6], t[7]]); } else
    if g == 9 { assert(moved_table(t, 9) =~= [t[1], t[0], t[5], t[4], t[3], t[2], t[7], t[6]]); } else
    if g == 10 { assert(moved_table(t, 10) =~= [t[2], t[4], t[6], t[0], t[7], t[1], t[3], t[5]]); } else
    if g == 11 { assert(moved_table(t, 11) =~= [t[4], t[2], t[7], t[1], t[6], t[0], t[5], t[3]]); } else
    if g == 12 { assert(moved_table(t, 12) =~= [t[3], t[5], t[0], t[6], t[1], t[7], t[2], t[4]]); } else
    if g == 13 { assert(moved_table(t, 13) =~= [t[5], t[3], t[1], t[7], t[0], t[6], t[4], t[2]]); } else
    if g == 14 { assert(moved_table(t, 14) =~= [t[6], t[7], t[2], t[3], t[4], t[5], t[0], t[1]]); } else
    if g == 15 { assert(moved_table(t, 15) =~= [t[7], t[6], t[4], t[5], t[2], t[3], t[1], t[0]]); } else
    if g == 16 { assert(moved_table(t, 16) =~= [t[0], t[2], t[1], t[3], t[4], t[6], t[5], t[7]]); } else
    if g == 17 { assert(moved_table(t, 17) =~= [t[1], t[4], t[0], t[5], t[2], t[7], t[3], t[6]]); } else
    if g == 18 { assert(moved_table(t, 18) =~= [t[2], t[0], t[4], t[6], t[1], t[3], t[7], t[5]]); } else
    if g == 19 { assert(moved_table(t, 19) =~= [t[4], t[1], t[2], t[7], t[0], t[5], t[6], t[3]]); } else
    if g == 20 { assert(moved_table(t, 20) =~= [t[3], t[6], t[5], t[0], t[7], t[2], t[1], t[4]]); } else
    if g == 21 { assert(moved_table(t, 21) =~= [t[5], t[7], t[3], t[1], t[6], t[4], t[0], t[2]]); } else
    if g == 22 { assert(moved_table(t, 22) =~= [t[6], t[3], t[7], t[2], t[5], t[0], t[4], t[1]]); } else
    if g == 23 { assert(moved_table(t, 23) =~= [t[7], t[5], t[6], t[4], t[3], t[1], t[2], t[0]]); } else
    if g == 24 { assert(moved_table(t, 24) =~= [t[0], t[3], t[1], t[2], t[5], t[6], t[4], t[7]]); } else
    if g == 25 { assert(moved_table(t, 25) =~= [t[1], t[5], t[0], t[4], t[3], t[7], t[2], t[6]]); } else
    if g == 26 { assert(moved_table(t, 26) =~= [t[2], t[6], t[4], t[0], t[7], t[3], t[1], t[5]]); } else
    if g == 27 { assert(moved_table(t, 27) =~= [t[4], t[7], t[2], t[1], t[6], t[5], t[0], t[3]]); } else
    if g == 28 { assert(moved_table(t, 28) =~= [t[3], t[0], t[5], t[6], t[1], t[2], t[7], t[4]]); } else
    if g == 29 { assert(moved_table(t, 29) =~= [t[5], t[1], t[3], t[7], t[0], t[4], t[6], t[2]]); } else
    if g == 30 { assert(moved_table(t, 30) =~= [t[6], t[2], t[7], t[3], t[4], t[0], t[5], t[1]]); } else
    if g == 31 { assert(moved_table(t, 31) =~= [t[7], t[4], t[6], t[5], t[2], t[1], t[3], t[0]]); } else
    if g == 32 { assert(moved_table(t, 32) =~= [t[0], t[2], t[3], t[1], t[6], t[4], t[5], t[7]]); } else
    if g == 33 { assert(moved_table(t, 33) =~= [t[1], t[4], t[5], t[0], t[7], t[2], t[3], t[6]]); } else
    if g == 34 { assert(moved_table(t, 34) =~= [t[2], t[0], t[6], t[4], t[3], t[1], t[7], t[5]]); } else
    if g == 35 { assert(moved_table(t, 35) =~= [t[4], t[1], t[7], t[2], t[5], t[0], t[6], t[3]]); } else
    if g == 36 { assert(moved_table(t, 36) =~= [t[3], t[6], t[0], t[5], t[2], t[7], t[1], t[4]]); } else
    if g == 37 { assert(moved_table(t, 37) =~= [t[5], t[7], t[1], t[3], t[4], t[6], t[0], t[2]]); } else
    if g == 38 { assert(moved_table(t, 38) =~= [t[6], t[3], t[2], t[7], t[0], t[5], t[4], t[1]]); } else
    if g == 39 { assert(moved_table(t, 39) =~= [t[7], t[5], t[4], t[6], t[1], t[3], t[2], t[0]]); } else
    if g == 40 { assert(moved_table(t, 40) =~= [t[0], t[3], t[2], t[1], t[6], t[5], t[4], t[7]]); } else
    if g == 41 { assert(moved_table(t, 41) =~= [t[1], t[5], t[4], t[0], t[7], t[3], t[2], t[6]]); } else
    if g == 42 { assert(moved_table(t, 42) =~= [t[2], t[6], t[0], t[4], t[3], t[7], t[1], t[5]]); } else
    if g == 43 { assert(moved_table(t, 43) =~= [t[4], t[7], t[1], t[2], t[5], t[6], t[0], t[3]]); } else
    if g == 44 { assert(moved_table(t, 44) =~= [t[3], t[0], t[6], t[5], t[2], t[1], t[7], t[4]]); } else
    if g == 45 { assert(moved_table(t, 45) =~= [t[5], t[1], t[7], t[3], t[4], t[0], t[6], t[2]]); } else
    if g == 46 { assert(moved_table(t, 46) =~= [t[6], t[2], t[3], t[7], t[0], t[4], t[5], t[1]]); }
    else { assert(moved_table(t, 47) =~= [t[7], t[4], t[5], t[6], t[1], t[2], t[3], t[0]]); }
}

/// A chart signature has the weight of the chart's corner table.
pub proof fn lemma_signature_weight(w: Word, p: [usize; 4])
    ensures
        table_weight(chart_signature(w, p)) == table_weight(corner_table(w, p)),
{
    reveal(chart_signature);
    let table = corner_table(w, p);
    lemma_least_reading_exists(table);
    let g = choose|g: int| 0 <= g < 48 && least_reading(table) == moved_table(table, g);
    lemma_reading_keeps_weight(table, g);
}

/// The weight of a chart's corner table, from its corner codes `v`.
pub proof fn lemma_table_weight_of_codes(w: Word, p: [usize; 4], v: (int, int, int, int, int, int, int, int))
    requires
        corner_codes_spec(w, p, 0) == v.0 && 0 <= v.0 < 256,
        corner_codes_spec(w, p, 1) == v.1 && 0 <= v.1 < 256,
        corner_codes_spec(w, p, 2) == v.2 && 0 <= v.2 < 256,
        corner_codes_spec(w, p, 3) == v.3 && 0 <= v.3 < 256,
        corner_codes_spec(w, p, 4) == v.4 && 0 <= v.4 < 256,
        corner_codes_spec(w, p, 5) == v.5 && 0 <= v.5 < 256,
        corner_codes_spec(w, p, 6) == v.6 && 0 <= v.6 < 256,
        corner_codes_spec(w, p, 7) == v.7 && 0 <= v.7 < 256,
    ensures
        table_weight(corner_table(w, p)) == cube(v.0) + cube(v.1) + cube(v.2) + cube(v.3) + cube(v.4) + cube(v.5) + cube(v.6) + cube(v.7),
{
}

/// Entry `t` of `s` is the entry at one of the positions `reps`.
pub open spec fn met_by(s: Seq<[u8; 8]>, reps: Seq<int>, t: int) -> bool {
    exists|i: int| 0 <= i < reps.len() && #[trigger] s[reps[i]] == s[t]
}

/// A prefix of a sequence has as many distinct entries as a list of
/// positions in it whose entries are pairwise different and meet every
/// entry of the prefix.
pub(crate) proof fn lemma_count_by_representatives(s: Seq<[u8; 8]>, n: nat, reps: Seq<int>)
    requires
        n <= s.len(),
        forall|i: int| 0 <= i < reps.len() ==> 0 <= #[trigger] reps[i] < n,
        forall|i: int, j: int| 0 <= i < reps.len() && 0 <= j < reps.len() && i != j ==> s[reps[i]] != s[reps[j]],
        forall|t: int| 0 <= t < n ==> #[trigger] met_by(s, reps, t),
    ensures
        first_occurrences(s, n).len() == reps.len(),
{
    lemma_first_occurrences_facts(s, n);
    let fo = first_occurrences(s, n);
    let x = Seq::new(reps.len(), |i: int| s[reps[i]]);
    assert forall|v: [u8; 8]| fo.to_set().contains(v) <==> x.to_set().contains(v) by {
        if fo.to_set().contains(v) {
            let i = choose|i: int| 0 <= i < fo.len() && fo[i] == v;
            let t = choose|t: int| 0 <= t < n && s[t] == #[trigger] fo[i];
            assert(met_by(s, reps, t));
            let j = choose|j: int| 0 <= j < reps.len() && #[trigger] s[reps[j]] == s[t];
            assert(x[j] == v);
        }
        if x.to_set().contains(v) {
            let j = choose|j: int| 0 <= j < x.len() && x[j] == v;
            assert(fo.contains(s[reps[j]]));
        }
    }
    assert(fo.to_set() =~= x.to_set());
    assert(x.no_duplicates());
    fo.unique_seq_to_set();
    x.unique_seq_to_set();
}

/// A word is one of the sixteen head words.
pub open spec fn is_head_word(w: Word) -> bool {
    w == head_word(0) || w == head_word(1) || w == head_word(2) || w == head_word(3)
        || w == head_word(4) || w == head_word(5) || w == head_word(6) || w == head_word(7)
        || w == head_word(8) || w == head_word(9) || w == head_word(10) || w == head_word(11)
        || w == head_word(12) || w == head_word(13) || w == head_word(14) || w == head_word(15)
}

pub(crate) proof fn lemma_is_head_word(w: Word)
    ensures
        head_words().contains(w) <==> is_head_word(w),
{
    if head_words().contains(w) {
        let i = choose|i: int| 0 <= i < 16 && head_words()[i] == w;
        assert(head_word(i) == w);
    }
    if is_head_word(w) {
        let i: int = if w == head_word(0) { 0 } else if w == head_word(1) { 1 } else if w == head_word(2) { 2 }
            else if w == head_word(3) { 3 } else if w == head_word(4) { 4 } else if w == head_word(5) { 5 }
            else if w == head_word(6) { 6 } else if w == head_word(7) { 7 } else if w == head_word(8) { 8 }
            else if w == head_word(9) { 9 } else if w == head_word(10) { 10 } else if w == head_word(11) { 11 }
            else if w == head_word(12) { 12 } else if w == head_word(13) { 13 } else if w == head_word(14) { 14 }
            else { 15 };
        assert(head_words()[i] == w);
    }
}

/// The atlas holds 16 * 3! = 96 ordered words: the sixteen head words and
/// the 80 other orderings of the sixteen spanning trees.
pub proof fn lemma_interior_word_count()
    ensures
        interior_words_spec().len() == 96,
{
    crate::census::lemma_census_words();
}

} // verus!
