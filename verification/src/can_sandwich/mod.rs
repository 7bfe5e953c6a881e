//! The production can-sandwich dispatcher: which construction certified a
//! frame, and the diagnostic state its interior rung records.
use vstd::prelude::*;
use vstd::arithmetic::div_mod::lemma_fundamental_div_mod_converse;
use crate::permutations::position_of_order;
use crate::atlas::{chart_class, lemma_quotient_sizes, lemma_same_class_iff_same_signature, InteriorQuotient};
use crate::census::lemma_hot_classes_are_the_first;

pub mod funnel;
pub mod prof;

pub use crate::atlas::init_tables;

verus! {

/// Which bounded construction produced the certified frame.
#[derive(Debug, Clone, Copy, PartialEq, Eq, Structural, PartialOrd, Ord)]
pub enum Rung {
    Vertex,
    Edge,
    Face,
    /// Routed `1 + 3` peel: rank-drop formulas and nine quadratic zero-entry
    /// walls. Dense residual fibers continue to the complete global axis tier.
    OnePlusThree,
    Interior,
    /// Per-chart six-bracket Cauer reduction: one decic, one cubic/quadratic
    /// lift, linear recovery, and the Heron-kernel frame.
    AxisQuartic,
    /// Klein-circulant one-sided chart.
    Klein,
    /// One factor has multiplicity `2 + 2`.
    Pair22,
    /// Radical strata, tried in all four orientations.
    Radical,
    /// Generic projective Spin action slice (research route).
    Spin,
    Unsolved,
}

/// How many ranked orders the edge and interior rungs try (all 24).
pub const CAND_K: usize = 24;

/// Number of image classes of the interior atlas.
pub const INTERIOR_CLASSES: usize = 216;

/// Interior-rung instrumentation: charts tried, and the winning plane word,
/// order, class and root of the last certified candidate (`-1` when unset),
/// plus the classes that admitted a certified candidate.
pub struct InteriorInstr {
    pub tries: usize,
    pub win_plane: i32,
    pub win_perm: usize,
    pub win_class: i32,
    pub win_root: i32,
    pub valid_classes: Vec<bool>,
}

impl InteriorInstr {
    /// One valid-class flag per interior class.
    pub open spec fn wf(&self) -> bool {
        self.valid_classes@.len() == INTERIOR_CLASSES
    }

    /// The state right after a reset.
    pub open spec fn is_reset(&self) -> bool {
        &&& self.tries == 0
        &&& self.win_plane == -1
        &&& self.win_perm == 0
        &&& self.win_class == -1
        &&& self.win_root == -1
        &&& self.valid_classes@ == Seq::new(INTERIOR_CLASSES as nat, |i: int| false)
    }
}

/// All-false flags, one per interior class.
fn no_classes() -> (flags: Vec<bool>)
    ensures
        flags@ == Seq::new(INTERIOR_CLASSES as nat, |i: int| false),
{
    let mut flags: Vec<bool> = Vec::new();
    let mut i: usize = 0;
    while i < INTERIOR_CLASSES
        invariant
            i <= INTERIOR_CLASSES,
            flags@ == Seq::new(i as nat, |j: int| false),
        decreases INTERIOR_CLASSES - i,
    {
        flags.push(false);
        i = i + 1;
    }
    flags
}

/// Fresh interior instrumentation, in the reset state.
pub fn new_interior_instr() -> (instr: InteriorInstr)
    ensures
        instr.is_reset(),
        instr.wf(),
{
    InteriorInstr { tries: 0, win_plane: -1, win_perm: 0, win_class: -1, win_root: -1, valid_classes: no_classes() }
}

/// Resets the interior instrumentation (call before a solve).
pub fn reset_interior_instr(instr: &mut InteriorInstr)
    ensures
        final(instr).is_reset(),
        final(instr).wf(),
{
    instr.tries = 0;
    instr.win_plane = -1;
    instr.win_perm = 0;
    instr.win_class = -1;
    instr.win_root = -1;
    instr.valid_classes = no_classes();
}

/// Counts one interior chart tried.
pub fn count_interior_try(instr: &mut InteriorInstr)
    requires
        old(instr).tries < usize::MAX,
    ensures
        *final(instr) == (InteriorInstr { tries: (old(instr).tries + 1) as usize, ..*old(instr) }),
        final(instr).wf() == old(instr).wf(),
{
    instr.tries = instr.tries + 1;
}

/// Records a certified interior candidate: its class becomes valid, and the
/// winning plane word, order, class and root are remembered.
pub fn record_interior_hit(instr: &mut InteriorInstr, class: usize, plane: usize, perm: usize, root: usize)
    requires
        class < old(instr).valid_classes@.len(),
    ensures
        final(instr).tries == old(instr).tries,
        final(instr).valid_classes@ == old(instr).valid_classes@.update(class as int, true),
        final(instr).win_plane == plane as i32,
        final(instr).win_perm == perm,
        final(instr).win_class == class as i32,
        final(instr).win_root == root as i32,
        final(instr).wf() == old(instr).wf(),
{
    instr.valid_classes.set(class, true);
    instr.win_plane = plane as i32;
    instr.win_perm = perm;
    instr.win_class = class as i32;
    instr.win_root = root as i32;
}

/// The positions `i < n` whose flag is set, in increasing order.
pub open spec fn marked_upto(flags: Seq<bool>, n: nat) -> Seq<u16>
    decreases n,
{
    if n == 0 {
        Seq::empty()
    } else if flags[n - 1] {
        marked_upto(flags, (n - 1) as nat).push((n - 1) as u16)
    } else {
        marked_upto(flags, (n - 1) as nat)
    }
}

/// The positions listed below `n` are strictly increasing, each below `n`
/// with its flag set, and every flagged position below `n` is listed.
pub proof fn lemma_marked_positions(flags: Seq<bool>, n: nat)
    requires
        n <= flags.len(),
        n <= 65536,
    ensures
        forall|i: int, j: int| 0 <= i < j < marked_upto(flags, n).len() ==> marked_upto(flags, n)[i] < marked_upto(flags, n)[j],
        forall|i: int| 0 <= i < marked_upto(flags, n).len() ==> (#[trigger] marked_upto(flags, n)[i]) < n && flags[marked_upto(flags, n)[i] as int],
        forall|c: u16| c < n && flags[c as int] ==> #[trigger] marked_upto(flags, n).contains(c),
    decreases n,
{
    if n > 0 {
        let prev = marked_upto(flags, (n - 1) as nat);
        lemma_marked_positions(flags, (n - 1) as nat);
        let now = marked_upto(flags, n);
        if flags[n - 1] {
            assert(now == prev.push((n - 1) as u16));
            assert forall|c: u16| c < n && flags[c as int] implies #[trigger] now.contains(c) by {
                if c < n - 1 {
                    assert(prev.contains(c));
                    let k = choose|k: int| 0 <= k < prev.len() && prev[k] == c;
                    assert(now[k] == c);
                } else {
                    assert(now[prev.len() as int] == c);
                }
            }
        }
    }
}

/// The positions whose flag is set, in increasing order.
pub fn marked(flags: &Vec<bool>) -> (positions: Vec<u16>)
    requires
        flags@.len() <= 65536,
    ensures
        positions@ == marked_upto(flags@, flags@.len()),
{
    let mut positions: Vec<u16> = Vec::new();
    let mut i: usize = 0;
    while i < flags.len()
        invariant
            i <= flags@.len() <= 65536,
            positions@ == marked_upto(flags@, i as nat),
        decreases flags@.len() - i,
    {
        if flags[i] {
            positions.push(i as u16);
        }
        i = i + 1;
    }
    positions
}

/// When exactly the positions below `m` are flagged, the flagged positions
/// below `n` are `0, 1, ...` up to `min(n, m)`.
proof fn lemma_marked_prefix(flags: Seq<bool>, n: nat, m: nat)
    requires
        n <= flags.len() <= 65536,
        forall|i: int| 0 <= i < flags.len() ==> (#[trigger] flags[i] <==> i < m),
    ensures
        marked_upto(flags, n) == Seq::new(if n < m { n } else { m }, |i: int| i as u16),
    decreases n,
{
    if n > 0 {
        lemma_marked_prefix(flags, (n - 1) as nat, m);
        assert(marked_upto(flags, n) =~= Seq::new(if n < m { n } else { m }, |i: int| i as u16));
    }
}

/// The structurally hot quotient classes (those met by the sixteen
/// principal words), in increasing order.
pub fn interior_hot_classes(quotient: &InteriorQuotient) -> (classes: Vec<u16>)
    requires
        quotient.is_atlas_quotient(),
    ensures
        classes@ == marked_upto(quotient.hot@, quotient.hot@.len()),
        forall|i: int, j: int| 0 <= i < j < classes@.len() ==> classes@[i] < classes@[j],
        forall|i: int| 0 <= i < classes@.len() ==> (#[trigger] classes@[i]) < quotient.hot@.len() && quotient.hot@[classes@[i] as int],
        forall|c: u16| c < quotient.hot@.len() && quotient.hot@[c as int] ==> #[trigger] classes@.contains(c),
        classes@.len() == 102,
        classes@ == Seq::new(102, |i: int| i as u16),
        forall|i: int| 0 <= i < classes@.len() ==> (#[trigger] classes@[i]) < INTERIOR_CLASSES,
{
    proof {
        lemma_quotient_sizes();
        lemma_marked_positions(quotient.hot@, quotient.hot@.len());
        lemma_hot_classes_are_the_first(*quotient);
        lemma_marked_prefix(quotient.hot@, quotient.hot@.len(), 102);
    }
    marked(&quotient.hot)
}

/// The class of every hot-atlas chart, word-major: entry `24 w + p` is the
/// class of plane word `w < 16` with order `p`.
pub fn interior_class_map(quotient: &InteriorQuotient) -> (map: Vec<u16>)
    requires
        quotient.is_atlas_quotient(),
    ensures
        map@ == Seq::new(16 * 24, |t: int| quotient.class@[t / 24][t % 24]),
        forall|t: int| 0 <= t < map@.len() ==> (#[trigger] map@[t]) < 102 && map@[t] < INTERIOR_CLASSES,
{
    proof {
        lemma_quotient_sizes();
        lemma_class_map_meets_the_hot_classes(*quotient);
        lemma_hot_classes_are_the_first(*quotient);
    }
    let mut map: Vec<u16> = Vec::with_capacity(16 * 24);
    let mut w: usize = 0;
    while w < 16
        invariant
            w <= 16,
            16 <= quotient.class@.len(),
            map@ == Seq::new(24 * w as nat, |t: int| quotient.class@[t / 24][t % 24]),
        decreases 16 - w,
    {
        let row = quotient.class[w];
        let mut p: usize = 0;
        while p < 24
            invariant
                w < 16,
                p <= 24,
                16 <= quotient.class@.len(),
                row == quotient.class@[w as int],
                map@ == Seq::new((24 * w + p) as nat, |t: int| quotient.class@[t / 24][t % 24]),
            decreases 24 - p,
        {
            map.push(row[p]);
            proof {
                let t = 24 * w + p;
                assert(t / 24 == w && t % 24 == p);
                assert(map@ =~= Seq::new((24 * w + p + 1) as nat, |t: int| quotient.class@[t / 24][t % 24]));
            }
            p = p + 1;
        }
        w = w + 1;
    }
    proof {
        assert forall|t: int| 0 <= t < map@.len() implies (#[trigger] map@[t]) < 102 && map@[t] < INTERIOR_CLASSES by {
            let (w, p) = (t / 24, t % 24);
            assert(map@[t] == quotient.class@[w][p]);
        }
    }
    map
}

/// The hot classes are exactly the classes of the charts of the sixteen hot
/// words: every entry of the class map is a hot class, and every hot class
/// is the class of some hot chart.
pub proof fn lemma_class_map_meets_the_hot_classes(quotient: InteriorQuotient)
    requires
        quotient.is_atlas_quotient(),
    ensures
        forall|w: int, p: int| 0 <= w < 16 && 0 <= p < 24 ==> (#[trigger] quotient.class@[w][p] as int) < quotient.hot@.len()
            && quotient.hot@[quotient.class@[w][p] as int],
        forall|c: int| 0 <= c < quotient.hot@.len() && #[trigger] quotient.hot@[c] ==> exists|w: int, p: int|
            0 <= w < 16 && 0 <= p < 24 && quotient.class@[w][p] as int == c,
{
    lemma_quotient_sizes();
    lemma_classes_in_range(quotient);
    assert forall|w: int, p: int| 0 <= w < 16 && 0 <= p < 24 implies (#[trigger] quotient.class@[w][p] as int) < quotient.hot@.len()
        && quotient.hot@[quotient.class@[w][p] as int] by {
        assert(quotient.class@[w][p] as int == chart_class(w, p));
    }
    assert forall|c: int| 0 <= c < quotient.hot@.len() && #[trigger] quotient.hot@[c] implies exists|w: int, p: int|
        0 <= w < 16 && 0 <= p < 24 && quotient.class@[w][p] as int == c by {
        let (w, p) = choose|w: int, p: int| 0 <= w < 16 && 0 <= p < 24 && chart_class(w, p) == c;
        assert(quotient.class@[w][p] as int == chart_class(w, p));
    }
}

/// The classes that admitted a certified candidate since the last reset,
/// in increasing order.
pub fn interior_valid_classes(instr: &InteriorInstr) -> (classes: Vec<u16>)
    requires
        instr.valid_classes@.len() <= 65536,
    ensures
        classes@ == marked_upto(instr.valid_classes@, instr.valid_classes@.len()),
        forall|i: int, j: int| 0 <= i < j < classes@.len() ==> classes@[i] < classes@[j],
        forall|i: int| 0 <= i < classes@.len() ==> (#[trigger] classes@[i]) < instr.valid_classes@.len()
            && instr.valid_classes@[classes@[i] as int],
        forall|c: u16| c < instr.valid_classes@.len() && instr.valid_classes@[c as int] ==> #[trigger] classes@.contains(c),
        instr.wf() ==> forall|i: int| 0 <= i < classes@.len() ==> (#[trigger] classes@[i]) < INTERIOR_CLASSES,
{
    proof {
        lemma_marked_positions(instr.valid_classes@, instr.valid_classes@.len());
    }
    marked(&instr.valid_classes)
}

/// `(charts tried, winning plane word or -1, winning order)`.
pub fn interior_instr(instr: &InteriorInstr) -> (summary: (usize, i32, usize))
    ensures
        summary == (instr.tries, instr.win_plane, instr.win_perm),
{
    (instr.tries, instr.win_plane, instr.win_perm)
}

/// `(winning class, winning root index)`, each `-1` when not set.
pub fn interior_class_root(instr: &InteriorInstr) -> (winner: (i32, i32))
    ensures
        winner == (instr.win_class, instr.win_root),
{
    (instr.win_class, instr.win_root)
}

/// The position in `table` of each order of `perms` (its first
/// occurrence): the static order indices an interior scan runs over.
pub fn order_indices(table: &Vec<[usize; 4]>, perms: &Vec<[usize; 4]>) -> (indices: Vec<usize>)
    requires
        forall|j: int| 0 <= j < perms@.len() ==> table@.contains(#[trigger] perms@[j]),
    ensures
        indices@.len() == perms@.len(),
        forall|j: int| 0 <= j < perms@.len() ==> {
            let i = #[trigger] indices@[j] as int;
            &&& 0 <= i < table@.len()
            &&& table@[i] == perms@[j]
            &&& forall|l: int| 0 <= l < i ==> table@[l] != perms@[j]
        },
{
    let mut indices: Vec<usize> = Vec::new();
    let mut j: usize = 0;
    while j < perms.len()
        invariant
            j <= perms@.len(),
            indices@.len() == j,
            forall|jj: int| 0 <= jj < perms@.len() ==> table@.contains(#[trigger] perms@[jj]),
            forall|jj: int| 0 <= jj < j ==> {
                let i = #[trigger] indices@[jj] as int;
                &&& 0 <= i < table@.len()
                &&& table@[i] == perms@[jj]
                &&& forall|l: int| 0 <= l < i ==> table@[l] != perms@[jj]
            },
        decreases perms@.len() - j,
    {
        let found = position_of_order(table, &perms[j]);
        match found {
            Some(i) => indices.push(i),
            None => {
                proof {
                    assert(table@.contains(perms@[j as int]));
                    let l = choose|l: int| 0 <= l < table@.len() && table@[l] == perms@[j as int];
                    assert(table@[l] != perms@[j as int]);
                }
            },
        }
        j = j + 1;
    }
    indices
}

/// The image class of interior chart `(perm, plane)` of the words from
/// `word_offset` on.
pub open spec fn scan_class(quotient: InteriorQuotient, word_offset: int, chart: (usize, usize)) -> int {
    quotient.class@[word_offset + chart.1][chart.0 as int] as int
}

/// The classes already exhausted when a scan of the words from
/// `word_offset` on starts: none for a full scan, the hot classes for the
/// cold words, and for a resumed scan the classes of its own head (words
/// `0..word_offset` under the same orders).
pub open spec fn initially_seen(quotient: InteriorQuotient, perms: Seq<usize>, word_offset: int) -> Seq<bool> {
    if word_offset == 0 {
        Seq::new(quotient.hot@.len(), |c: int| false)
    } else if word_offset >= 16 {
        quotient.hot@
    } else {
        Seq::new(quotient.hot@.len(), |c: int| exists|w: int, j: int| 0 <= w < word_offset && 0 <= j < perms.len()
            && quotient.class@[w][perms[j] as int] as int == c)
    }
}

/// The charts a scan visits, in order: the explicit `(order, plane)`
/// sequence when one is given, else every order crossed with every plane
/// word, orders outermost.
pub open spec fn scan_charts(perms: Seq<usize>, n_words: nat, order: Option<Seq<(usize, usize)>>) -> Seq<(usize, usize)> {
    match order {
        Some(o) => o,
        None => Seq::new(perms.len() * n_words, |i: int| (perms[i / n_words as int], (i % n_words as int) as usize)),
    }
}

/// Chart `i` of the scan is the first of its class: its class was neither
/// exhausted before the scan nor met earlier in it.
pub open spec fn first_of_class(quotient: InteriorQuotient, seen: Seq<bool>, charts: Seq<(usize, usize)>, word_offset: int, i: int) -> bool {
    &&& !seen[scan_class(quotient, word_offset, charts[i])]
    &&& forall|j: int| 0 <= j < i ==> scan_class(quotient, word_offset, charts[j]) != scan_class(quotient, word_offset, charts[i])
}

/// The charts among the first `m` that the scan tries: with
/// deduplication, only the first chart of each class not yet exhausted.
pub open spec fn tried_charts(quotient: InteriorQuotient, seen: Seq<bool>, charts: Seq<(usize, usize)>, word_offset: int, deduplicate: bool, m: nat) -> Seq<(usize, usize)>
    decreases m,
{
    if m == 0 {
        Seq::empty()
    } else {
        let i = m - 1;
        tried_charts(quotient, seen, charts, word_offset, deduplicate, (m - 1) as nat)
            + if !deduplicate || first_of_class(quotient, seen, charts, word_offset, i) { seq![charts[i]] } else { Seq::empty() }
    }
}

/// Without deduplication a scan tries every chart it visits, in the order it
/// visits them, whatever classes were exhausted before it.
pub proof fn lemma_raw_scan_tries_every_chart(quotient: InteriorQuotient, seen: Seq<bool>, charts: Seq<(usize, usize)>, word_offset: int, m: nat)
    requires
        m <= charts.len(),
    ensures
        tried_charts(quotient, seen, charts, word_offset, false, m) == charts.take(m as int),
    decreases m,
{
    if m > 0 {
        lemma_raw_scan_tries_every_chart(quotient, seen, charts, word_offset, (m - 1) as nat);
        assert(charts.take(m as int) =~= charts.take(m - 1) + seq![charts[m - 1]]);
    }
}

/// A deduplicated scan tries, in scan order, exactly the charts whose class
/// was not exhausted before the scan and is met there for the first time.
pub proof fn lemma_dedup_scan_tries_first_charts(quotient: InteriorQuotient, seen: Seq<bool>, charts: Seq<(usize, usize)>, word_offset: int, m: nat)
    requires
        m <= charts.len(),
    ensures
        tried_charts(quotient, seen, charts, word_offset, true, m) == Seq::new(m, |i: int| i).filter(|i: int|
            !seen[scan_class(quotient, word_offset, charts[i])]
            && forall|j: int| 0 <= j < i ==> scan_class(quotient, word_offset, charts[j]) != scan_class(quotient, word_offset, charts[i]))
            .map_values(|i: int| charts[i]),
    decreases m,
{
    reveal(Seq::filter);
    if m > 0 {
        lemma_dedup_scan_tries_first_charts(quotient, seen, charts, word_offset, (m - 1) as nat);
        let pred = |i: int|
            !seen[scan_class(quotient, word_offset, charts[i])]
            && forall|j: int| 0 <= j < i ==> scan_class(quotient, word_offset, charts[j]) != scan_class(quotient, word_offset, charts[i]);
        let ids = Seq::new(m, |i: int| i);
        assert(ids.drop_last() =~= Seq::new((m - 1) as nat, |i: int| i));
        assert(ids.last() == m - 1);
        let before = Seq::new((m - 1) as nat, |i: int| i).filter(pred);
        assert(pred(m - 1) == first_of_class(quotient, seen, charts, word_offset, m - 1));
        if pred(m - 1) {
            assert(ids.filter(pred) == before.push(m - 1));
            assert(before.push(m - 1).map_values(|i: int| charts[i]) =~= before.map_values(|i: int| charts[i]).push(charts[m - 1]));
        } else {
            assert(ids.filter(pred) == before);
        }
        assert(tried_charts(quotient, seen, charts, word_offset, true, m) =~= ids.filter(pred).map_values(|i: int| charts[i]));
    }
}

/// Every chart of the atlas has a class below the number of classes.
proof fn lemma_classes_in_range(quotient: InteriorQuotient)
    requires
        quotient.is_atlas_quotient(),
    ensures
        forall|w: int, p: int| 0 <= w < quotient.class@.len() && 0 <= p < 24 ==> (#[trigger] quotient.class@[w][p] as int) < quotient.hot@.len(),
{
    assert forall|w: int, p: int| 0 <= w < quotient.class@.len() && 0 <= p < 24 implies (#[trigger] quotient.class@[w][p] as int) < quotient.hot@.len() by {
        lemma_same_class_iff_same_signature(w, p, w, p);
    }
}

/// The exhausted-class flags a scan of the words from `word_offset` on
/// starts from.
fn initial_seen(quotient: &InteriorQuotient, perms: &Vec<usize>, word_offset: usize) -> (seen: Vec<bool>)
    requires
        quotient.is_atlas_quotient(),
        forall|j: int| 0 <= j < perms@.len() ==> perms@[j] < 24,
    ensures
        seen@ == initially_seen(*quotient, perms@, word_offset as int),
{
    proof {
        lemma_quotient_sizes();
        lemma_classes_in_range(*quotient);
    }
    let n_classes = quotient.hot.len();
    if word_offset >= 16 {
        return quotient.hot.clone();
    }
    let mut seen: Vec<bool> = Vec::new();
    let mut c: usize = 0;
    while c < n_classes
        invariant
            c <= n_classes == quotient.hot@.len(),
            seen@ == Seq::new(c as nat, |i: int| false),
        decreases n_classes - c,
    {
        seen.push(false);
        c = c + 1;
    }
    let ghost q = *quotient;
    let mut w: usize = 0;
    while w < word_offset
        invariant
            word_offset < 16 <= q.class@.len(),
            q == *quotient,
            q.is_atlas_quotient(),
            w <= word_offset,
            forall|j: int| 0 <= j < perms@.len() ==> perms@[j] < 24,
            forall|ww: int, p: int| 0 <= ww < q.class@.len() && 0 <= p < 24 ==> (#[trigger] q.class@[ww][p] as int) < q.hot@.len(),
            seen@ == Seq::new(q.hot@.len(), |c: int| exists|v: int, j: int| 0 <= v < w && 0 <= j < perms@.len()
                && q.class@[v][perms@[j] as int] as int == c),
        decreases word_offset - w,
    {
        let row = quotient.class[w];
        let mut j: usize = 0;
        while j < perms.len()
            invariant
                word_offset < 16 <= q.class@.len(),
                q == *quotient,
                w < word_offset,
                j <= perms@.len(),
                row == q.class@[w as int],
                forall|jj: int| 0 <= jj < perms@.len() ==> perms@[jj] < 24,
                forall|ww: int, p: int| 0 <= ww < q.class@.len() && 0 <= p < 24 ==> (#[trigger] q.class@[ww][p] as int) < q.hot@.len(),
                seen@ == Seq::new(q.hot@.len(), |c: int| (exists|v: int, jj: int| 0 <= v < w && 0 <= jj < perms@.len()
                    && q.class@[v][perms@[jj] as int] as int == c)
                    || (exists|jj: int| 0 <= jj < j && q.class@[w as int][perms@[jj] as int] as int == c)),
            decreases perms@.len() - j,
        {
            let class = row[perms[j]] as usize;
            assert(q.class@[w as int][perms@[j as int] as int] as int == class);
            seen.set(class, true);
            j = j + 1;
            assert(seen@ =~= Seq::new(q.hot@.len(), |c: int| (exists|v: int, jj: int| 0 <= v < w && 0 <= jj < perms@.len()
                && q.class@[v][perms@[jj] as int] as int == c)
                || (exists|jj: int| 0 <= jj < j && q.class@[w as int][perms@[jj] as int] as int == c)));
        }
        w = w + 1;
        assert(seen@ =~= Seq::new(q.hot@.len(), |c: int| exists|v: int, jj: int| 0 <= v < w && 0 <= jj < perms@.len()
            && q.class@[v][perms@[jj] as int] as int == c));
    }
    proof {
        if word_offset == 0 {
            assert(seen@ =~= initially_seen(q, perms@, 0));
        } else {
            assert(seen@ =~= initially_seen(q, perms@, word_offset as int));
        }
    }
    seen
}

/// Where the chart index `i < perms * n_words` of the cross product falls.
proof fn lemma_cross_index(i: int, n_perms: int, n_words: int)
    requires
        0 <= i < n_perms * n_words,
        0 < n_words,
    ensures
        0 <= i / n_words < n_perms,
        0 <= i % n_words < n_words,
{
    assert(0 <= i / n_words < n_perms) by (nonlinear_arith)
        requires
            0 <= i < n_perms * n_words,
            0 < n_words,
    ;
}

/// The charts the interior rung tries, in order, when scanning the plane
/// words from `word_offset` on (`n_words` of them) under the Heap orders
/// `perms` (indices into the 24 orders), or along an explicit `order` of
/// `(order index, word index)` pairs. With `deduplicate`, a chart is tried
/// only if it is the first of its image class and the class was not
/// exhausted before the scan (see `initially_seen`); every class is still
/// tried once.
pub fn interior_scan(
    quotient: &InteriorQuotient,
    perms: &Vec<usize>,
    n_words: usize,
    word_offset: usize,
    order: Option<&Vec<(usize, usize)>>,
    deduplicate: bool,
) -> (tried: Vec<(usize, usize)>)
    requires
        quotient.is_atlas_quotient(),
        forall|j: int| 0 <= j < perms@.len() ==> perms@[j] < 24,
        match order {
            Some(o) => forall|i: int| 0 <= i < o@.len() ==> (#[trigger] o@[i]).0 < 24 && word_offset + o@[i].1 < quotient.class@.len(),
            None => word_offset + n_words <= quotient.class@.len() && perms@.len() * n_words <= usize::MAX,
        },
    ensures
        ({
            let charts = scan_charts(perms@, n_words as nat, match order { Some(o) => Some(o@), None => None });
            let seen = initially_seen(*quotient, perms@, word_offset as int);
            tried@ == tried_charts(*quotient, seen, charts, word_offset as int, deduplicate, charts.len())
        }),
        !deduplicate ==> tried@ == scan_charts(perms@, n_words as nat, match order { Some(o) => Some(o@), None => None }),
        ({
            let charts = scan_charts(perms@, n_words as nat, match order { Some(o) => Some(o@), None => None });
            let seen = initially_seen(*quotient, perms@, word_offset as int);
            deduplicate ==> tried@ == Seq::new(charts.len(), |i: int| i).filter(|i: int|
                !seen[scan_class(*quotient, word_offset as int, charts[i])]
                && forall|j: int| 0 <= j < i ==> scan_class(*quotient, word_offset as int, charts[j]) != scan_class(*quotient, word_offset as int, charts[i]))
                .map_values(|i: int| charts[i])
        }),
{
    let ghost q = *quotient;
    proof {
        lemma_quotient_sizes();
        lemma_classes_in_range(q);
    }
    let ghost charts = scan_charts(perms@, n_words as nat, match order { Some(o) => Some(o@), None => None });
    let ghost seen0 = initially_seen(q, perms@, word_offset as int);
    let mut seen = initial_seen(quotient, perms, word_offset);
    let n_iter: usize = match order {
        Some(o) => o.len(),
        None => perms.len() * n_words,
    };
    let mut tried: Vec<(usize, usize)> = Vec::new();
    proof {
        if order.is_none() && n_words > 0 {
            assert forall|i: int| 0 <= i < charts.len() implies (#[trigger] charts[i]).0 < 24 && word_offset + charts[i].1 < q.class@.len() by {
                lemma_cross_index(i, perms@.len() as int, n_words as int);
            }
        }
        assert(seen@ =~= Seq::new(q.hot@.len(), |c: int| seen0[c] || exists|j: int| 0 <= j < 0 && scan_class(q, word_offset as int, charts[j]) == c));
    }
    let n_rows = quotient.class.len();
    let mut it: usize = 0;
    while it < n_iter
        invariant
            q == *quotient,
            n_rows == q.class@.len(),
            q.is_atlas_quotient(),
            n_iter == charts.len(),
            it <= n_iter,
            forall|j: int| 0 <= j < perms@.len() ==> perms@[j] < 24,
            forall|ww: int, p: int| 0 <= ww < q.class@.len() && 0 <= p < 24 ==> (#[trigger] q.class@[ww][p] as int) < q.hot@.len(),
            forall|i: int| 0 <= i < charts.len() ==> (#[trigger] charts[i]).0 < 24 && word_offset + charts[i].1 < q.class@.len(),
            charts == scan_charts(perms@, n_words as nat, match order { Some(o) => Some(o@), None => None }),
            seen0 == initially_seen(q, perms@, word_offset as int),
            seen0.len() == q.hot@.len(),
            seen@ == Seq::new(q.hot@.len(), |c: int| seen0[c] || exists|j: int| 0 <= j < it && scan_class(q, word_offset as int, charts[j]) == c),
            tried@ == tried_charts(q, seen0, charts, word_offset as int, deduplicate, it as nat),
        decreases n_iter - it,
    {
        let (perm, plane) = match order {
            Some(o) => o[it],
            None => {
                proof {
                    lemma_cross_index(it as int, perms@.len() as int, n_words as int);
                }
                (perms[it / n_words], it % n_words)
            },
        };
        assert((perm, plane) == charts[it as int]);
        assert(perm == charts[it as int].0 && plane == charts[it as int].1);
        assert(perm < 24 && word_offset + plane < q.class@.len());
        let w = word_offset + plane;
        let row = quotient.class[w];
        let class = row[perm] as usize;
        assert(class == scan_class(q, word_offset as int, charts[it as int]));
        let ghost before = seen@;
        if deduplicate && seen[class] {
            proof {
                assert(!first_of_class(q, seen0, charts, word_offset as int, it as int));
                assert(seen@ =~= Seq::new(q.hot@.len(), |c: int| seen0[c] || exists|j: int| 0 <= j < it + 1 && scan_class(q, word_offset as int, charts[j]) == c));
            }
        } else {
            proof {
                if deduplicate {
                    assert(first_of_class(q, seen0, charts, word_offset as int, it as int));
                }
            }
            seen.set(class, true);
            tried.push((perm, plane));
            assert(seen@ =~= Seq::new(q.hot@.len(), |c: int| seen0[c] || exists|j: int| 0 <= j < it + 1 && scan_class(q, word_offset as int, charts[j]) == c));
        }
        it = it + 1;
    }
    proof {
        lemma_raw_scan_tries_every_chart(q, seen0, charts, word_offset as int, charts.len());
        lemma_dedup_scan_tries_first_charts(q, seen0, charts, word_offset as int, charts.len());
        assert(charts.take(charts.len() as int) =~= charts);
    }
    tried
}

/// A deduplicated scan tries each class it meets exactly once: the charts
/// it tries have pairwise distinct classes, none of them exhausted before
/// the scan, and every chart whose class was not exhausted before has its
/// class tried. So the order of a scan never changes which classes are
/// covered.
pub proof fn lemma_scan_tries_each_class_once(quotient: InteriorQuotient, seen: Seq<bool>, charts: Seq<(usize, usize)>, word_offset: int, m: nat)
    requires
        m <= charts.len(),
    ensures
        ({
            let tried = tried_charts(quotient, seen, charts, word_offset, true, m);
            &&& forall|a: int, b: int| 0 <= a < b < tried.len() ==> scan_class(quotient, word_offset, tried[a]) != scan_class(quotient, word_offset, tried[b])
            &&& forall|a: int| 0 <= a < tried.len() ==> !seen[scan_class(quotient, word_offset, #[trigger] tried[a])]
            &&& forall|i: int| 0 <= i < m && !seen[scan_class(quotient, word_offset, #[trigger] charts[i])] ==> exists|a: int| 0 <= a < tried.len()
                && scan_class(quotient, word_offset, tried[a]) == scan_class(quotient, word_offset, charts[i])
        }),
    decreases m,
{
    if m > 0 {
        let i = m - 1;
        lemma_scan_tries_each_class_once(quotient, seen, charts, word_offset, (m - 1) as nat);
        let prev = tried_charts(quotient, seen, charts, word_offset, true, (m - 1) as nat);
        let tried = tried_charts(quotient, seen, charts, word_offset, true, m);
        // Every chart tried so far is one of the first m - 1 charts.
        lemma_tried_are_charts(quotient, seen, charts, word_offset, (m - 1) as nat);
        if first_of_class(quotient, seen, charts, word_offset, i) {
            assert(tried == prev.push(charts[i]));
            assert forall|a: int, b: int| 0 <= a < b < tried.len() implies scan_class(quotient, word_offset, tried[a]) != scan_class(quotient, word_offset, tried[b]) by {
                if b == prev.len() {
                    let j = choose|j: int| 0 <= j < i && charts[j] == prev[a];
                    assert(scan_class(quotient, word_offset, charts[j]) != scan_class(quotient, word_offset, charts[i]));
                } else {
                    assert(tried[a] == prev[a] && tried[b] == prev[b]);
                }
            }
            assert forall|k: int| 0 <= k < m && !seen[scan_class(quotient, word_offset, #[trigger] charts[k])] implies exists|a: int| 0 <= a < tried.len()
                && scan_class(quotient, word_offset, tried[a]) == scan_class(quotient, word_offset, charts[k]) by {
                if k == i {
                    assert(tried[prev.len() as int] == charts[i]);
                } else {
                    let a = choose|a: int| 0 <= a < prev.len() && scan_class(quotient, word_offset, prev[a]) == scan_class(quotient, word_offset, charts[k]);
                    assert(tried[a] == prev[a]);
                }
            }
            assert forall|a: int| 0 <= a < tried.len() implies !seen[scan_class(quotient, word_offset, #[trigger] tried[a])] by {
                if a < prev.len() {
                    assert(tried[a] == prev[a]);
                }
            }
        } else {
            assert(tried == prev);
            assert forall|k: int| 0 <= k < m && !seen[scan_class(quotient, word_offset, #[trigger] charts[k])] implies exists|a: int| 0 <= a < tried.len()
                && scan_class(quotient, word_offset, tried[a]) == scan_class(quotient, word_offset, charts[k]) by {
                if k == i {
                    let j = choose|j: int| 0 <= j < i && scan_class(quotient, word_offset, charts[j]) == scan_class(quotient, word_offset, charts[i]);
                    assert(!seen[scan_class(quotient, word_offset, charts[j])]);
                }
            }
        }
    }
}

/// Every chart a scan tries among the first `m` is one of them.
proof fn lemma_tried_are_charts(quotient: InteriorQuotient, seen: Seq<bool>, charts: Seq<(usize, usize)>, word_offset: int, m: nat)
    requires
        m <= charts.len(),
    ensures
        forall|a: int| 0 <= a < tried_charts(quotient, seen, charts, word_offset, true, m).len() ==> exists|j: int| 0 <= j < m
            && charts[j] == #[trigger] tried_charts(quotient, seen, charts, word_offset, true, m)[a],
    decreases m,
{
    if m > 0 {
        lemma_tried_are_charts(quotient, seen, charts, word_offset, (m - 1) as nat);
        let prev = tried_charts(quotient, seen, charts, word_offset, true, (m - 1) as nat);
        let tried = tried_charts(quotient, seen, charts, word_offset, true, m);
        assert forall|a: int| 0 <= a < tried.len() implies exists|j: int| 0 <= j < m && charts[j] == #[trigger] tried[a] by {
            if a < prev.len() {
                assert(tried[a] == prev[a]);
                let j = choose|j: int| 0 <= j < m - 1 && charts[j] == prev[a];
            } else {
                assert(tried[a] == charts[m - 1]);
            }
        }
    }
}

/// The classes of the charts of words `lo..hi` under the orders `perms`.
pub open spec fn word_classes(quotient: InteriorQuotient, perms: Seq<usize>, lo: int, hi: int) -> Set<int> {
    Set::new(|c: int| exists|w: int, j: int| lo <= w < hi && 0 <= j < perms.len() && quotient.class@[w][perms[j] as int] as int == c)
}

/// The classes of the charts a scan of the words from `word_offset` on tried.
pub open spec fn classes_of(quotient: InteriorQuotient, word_offset: int, tried: Seq<(usize, usize)>) -> Set<int> {
    Set::new(|c: int| exists|a: int| 0 <= a < tried.len() && scan_class(quotient, word_offset, tried[a]) == c)
}

/// The classes a deduplicated scan tries are those of its charts that were
/// not exhausted before it.
proof fn lemma_tried_classes(quotient: InteriorQuotient, seen: Seq<bool>, charts: Seq<(usize, usize)>, word_offset: int)
    ensures
        classes_of(quotient, word_offset, tried_charts(quotient, seen, charts, word_offset, true, charts.len()))
            == Set::new(|c: int| !seen[c] && exists|i: int| 0 <= i < charts.len() && scan_class(quotient, word_offset, charts[i]) == c),
{
    let tried = tried_charts(quotient, seen, charts, word_offset, true, charts.len());
    lemma_scan_tries_each_class_once(quotient, seen, charts, word_offset, charts.len());
    lemma_tried_are_charts(quotient, seen, charts, word_offset, charts.len());
    let rhs = Set::new(|c: int| !seen[c] && exists|i: int| 0 <= i < charts.len() && scan_class(quotient, word_offset, charts[i]) == c);
    assert forall|c: int| classes_of(quotient, word_offset, tried).contains(c) <==> rhs.contains(c) by {
        if classes_of(quotient, word_offset, tried).contains(c) {
            let a = choose|a: int| 0 <= a < tried.len() && scan_class(quotient, word_offset, tried[a]) == c;
            let j = choose|j: int| 0 <= j < charts.len() && charts[j] == tried[a];
            assert(!seen[scan_class(quotient, word_offset, tried[a])]);
            assert(scan_class(quotient, word_offset, charts[j]) == c);
        }
        if rhs.contains(c) {
            let i = choose|i: int| 0 <= i < charts.len() && scan_class(quotient, word_offset, charts[i]) == c;
            assert(!seen[scan_class(quotient, word_offset, charts[i])]);
        }
    }
    assert(classes_of(quotient, word_offset, tried) =~= rhs);
}

/// A cross-product scan of `n_words` words from `word_offset` on meets
/// exactly the classes of those words under its orders.
proof fn lemma_cross_scan_classes(quotient: InteriorQuotient, perms: Seq<usize>, n_words: nat, word_offset: int)
    requires
        n_words <= usize::MAX,
    ensures
        Set::new(|c: int| exists|i: int| 0 <= i < scan_charts(perms, n_words, None).len()
            && scan_class(quotient, word_offset, scan_charts(perms, n_words, None)[i]) == c)
            == word_classes(quotient, perms, word_offset, word_offset + n_words),
{
    let charts = scan_charts(perms, n_words, None);
    let lhs = Set::new(|c: int| exists|i: int| 0 <= i < charts.len() && scan_class(quotient, word_offset, charts[i]) == c);
    let rhs = word_classes(quotient, perms, word_offset, word_offset + n_words);
    assert forall|c: int| lhs.contains(c) <==> rhs.contains(c) by {
        if lhs.contains(c) {
            let i = choose|i: int| 0 <= i < charts.len() && scan_class(quotient, word_offset, charts[i]) == c;
            if n_words == 0 {
                assert(perms.len() * n_words == 0) by (nonlinear_arith)
                    requires n_words == 0;
            }
            lemma_cross_index(i, perms.len() as int, n_words as int);
            assert(charts[i] == (perms[i / n_words as int], (i % n_words as int) as usize));
            let j = i / n_words as int;
            let w = i % n_words as int;
            assert(word_offset <= word_offset + w < word_offset + n_words && 0 <= j < perms.len()
                && quotient.class@[word_offset + w][perms[j] as int] as int == c);
        }
        if rhs.contains(c) {
            let (w, j) = choose|w: int, j: int| word_offset <= w < word_offset + n_words && 0 <= j < perms.len()
                && quotient.class@[w][perms[j] as int] as int == c;
            let i = j * n_words + (w - word_offset);
            lemma_fundamental_div_mod_converse(i, n_words as int, j, w - word_offset);
            assert(0 <= i < perms.len() * n_words) by (nonlinear_arith)
                requires
                    0 <= j < perms.len(),
                    0 <= w - word_offset < n_words,
                    i == j * n_words + (w - word_offset),
            ;
            assert(charts[i] == (perms[j], (w - word_offset) as usize));
            assert(((w - word_offset) as usize) as int == w - word_offset);
            assert(scan_class(quotient, word_offset, charts[i]) == c);
        }
    }
    assert(lhs =~= rhs);
}

/// Splitting the hot scan at word `split` loses and repeats nothing: a head
/// scan of words `0..split` and a scan of words `split..n_words` resumed
/// from it try disjoint class sets whose union is exactly the class set of
/// one continuous scan of words `0..n_words`.
pub proof fn lemma_resumed_scan_covers_the_same_classes(quotient: InteriorQuotient, perms: Seq<usize>, split: nat, n_words: nat)
    requires
        quotient.is_atlas_quotient(),
        forall|j: int| 0 <= j < perms.len() ==> perms[j] < 24,
        0 < split < 16,
        split <= n_words <= quotient.class@.len(),
    ensures
        ({
            let head = tried_charts(quotient, initially_seen(quotient, perms, 0), scan_charts(perms, split, None), 0, true,
                scan_charts(perms, split, None).len());
            let tail_charts = scan_charts(perms, (n_words - split) as nat, None);
            let tail = tried_charts(quotient, initially_seen(quotient, perms, split as int), tail_charts, split as int, true,
                tail_charts.len());
            let whole = tried_charts(quotient, initially_seen(quotient, perms, 0), scan_charts(perms, n_words, None), 0, true,
                scan_charts(perms, n_words, None).len());
            &&& classes_of(quotient, 0, head) + classes_of(quotient, split as int, tail) == classes_of(quotient, 0, whole)
            &&& classes_of(quotient, 0, head).disjoint(classes_of(quotient, split as int, tail))
        }),
{
    lemma_quotient_sizes();
    lemma_classes_in_range(quotient);
    let none = initially_seen(quotient, perms, 0);
    let resumed = initially_seen(quotient, perms, split as int);
    let head_charts = scan_charts(perms, split, None);
    let tail_charts = scan_charts(perms, (n_words - split) as nat, None);
    let whole_charts = scan_charts(perms, n_words, None);
    lemma_tried_classes(quotient, none, head_charts, 0);
    lemma_tried_classes(quotient, resumed, tail_charts, split as int);
    lemma_tried_classes(quotient, none, whole_charts, 0);
    lemma_cross_scan_classes(quotient, perms, split, 0);
    lemma_cross_scan_classes(quotient, perms, (n_words - split) as nat, split as int);
    lemma_cross_scan_classes(quotient, perms, n_words, 0);
    let head_set = word_classes(quotient, perms, 0, split as int);
    let tail_set = word_classes(quotient, perms, split as int, n_words as int);
    let whole_set = word_classes(quotient, perms, 0, n_words as int);
    let head = tried_charts(quotient, none, head_charts, 0, true, head_charts.len());
    let tail = tried_charts(quotient, resumed, tail_charts, split as int, true, tail_charts.len());
    let whole = tried_charts(quotient, none, whole_charts, 0, true, whole_charts.len());
    // Every class met lies below the number of classes, where the flags are defined.
    assert(classes_of(quotient, 0, head) =~= head_set) by {
        assert forall|c: int| head_set.contains(c) implies !none[c] by {
            let (w, j) = choose|w: int, j: int| 0 <= w < split && 0 <= j < perms.len() && quotient.class@[w][perms[j] as int] as int == c;
        }
    }
    assert(classes_of(quotient, 0, whole) =~= whole_set) by {
        assert forall|c: int| whole_set.contains(c) implies !none[c] by {
            let (w, j) = choose|w: int, j: int| 0 <= w < n_words && 0 <= j < perms.len() && quotient.class@[w][perms[j] as int] as int == c;
        }
    }
    assert(classes_of(quotient, split as int, tail) =~= tail_set.difference(head_set)) by {
        assert forall|c: int| tail_set.contains(c) implies (resumed[c] <==> head_set.contains(c)) by {
            let (w, j) = choose|w: int, j: int| split <= w < n_words && 0 <= j < perms.len() && quotient.class@[w][perms[j] as int] as int == c;
        }
    }
    assert(head_set + tail_set.difference(head_set) =~= whole_set) by {
        assert forall|c: int| whole_set.contains(c) implies head_set.contains(c) || tail_set.contains(c) by {
            let (w, j) = choose|w: int, j: int| 0 <= w < n_words && 0 <= j < perms.len() && quotient.class@[w][perms[j] as int] as int == c;
            if w < split {
                assert(head_set.contains(c));
            } else {
                assert(tail_set.contains(c));
            }
        }
    }
}

/// The cold scan completes the hot one: when the orders include all 24, a
/// scan of the sixteen hot words and a cold scan of the words from the
/// seventeenth on try disjoint class sets whose union is the class set of
/// one continuous scan of all those words.
pub proof fn lemma_cold_scan_completes_the_hot_scan(quotient: InteriorQuotient, perms: Seq<usize>, n_words: nat)
    requires
        quotient.is_atlas_quotient(),
        forall|j: int| 0 <= j < perms.len() ==> perms[j] < 24,
        forall|p: usize| p < 24 ==> perms.contains(p),
        16 <= n_words <= quotient.class@.len(),
    ensures
        ({
            let head = tried_charts(quotient, initially_seen(quotient, perms, 0), scan_charts(perms, 16, None), 0, true,
                scan_charts(perms, 16, None).len());
            let cold_charts = scan_charts(perms, (n_words - 16) as nat, None);
            let cold = tried_charts(quotient, initially_seen(quotient, perms, 16), cold_charts, 16, true, cold_charts.len());
            let whole = tried_charts(quotient, initially_seen(quotient, perms, 0), scan_charts(perms, n_words, None), 0, true,
                scan_charts(perms, n_words, None).len());
            &&& classes_of(quotient, 0, head) + classes_of(quotient, 16, cold) == classes_of(quotient, 0, whole)
            &&& classes_of(quotient, 0, head).disjoint(classes_of(quotient, 16, cold))
        }),
{
    lemma_quotient_sizes();
    lemma_classes_in_range(quotient);
    let none = initially_seen(quotient, perms, 0);
    let hot = initially_seen(quotient, perms, 16);
    let head_charts = scan_charts(perms, 16, None);
    let cold_charts = scan_charts(perms, (n_words - 16) as nat, None);
    let whole_charts = scan_charts(perms, n_words, None);
    lemma_tried_classes(quotient, none, head_charts, 0);
    lemma_tried_classes(quotient, hot, cold_charts, 16);
    lemma_tried_classes(quotient, none, whole_charts, 0);
    lemma_cross_scan_classes(quotient, perms, 16, 0);
    lemma_cross_scan_classes(quotient, perms, (n_words - 16) as nat, 16);
    lemma_cross_scan_classes(quotient, perms, n_words, 0);
    let head_set = word_classes(quotient, perms, 0, 16);
    let cold_set = word_classes(quotient, perms, 16, n_words as int);
    let whole_set = word_classes(quotient, perms, 0, n_words as int);
    let head = tried_charts(quotient, none, head_charts, 0, true, head_charts.len());
    let cold = tried_charts(quotient, hot, cold_charts, 16, true, cold_charts.len());
    let whole = tried_charts(quotient, none, whole_charts, 0, true, whole_charts.len());
    assert(classes_of(quotient, 0, head) =~= head_set) by {
        assert forall|c: int| head_set.contains(c) implies !none[c] by {
            let (w, j) = choose|w: int, j: int| 0 <= w < 16 && 0 <= j < perms.len() && quotient.class@[w][perms[j] as int] as int == c;
        }
    }
    assert(classes_of(quotient, 0, whole) =~= whole_set) by {
        assert forall|c: int| whole_set.contains(c) implies !none[c] by {
            let (w, j) = choose|w: int, j: int| 0 <= w < n_words && 0 <= j < perms.len() && quotient.class@[w][perms[j] as int] as int == c;
        }
    }
    // The hot flags are exactly the classes of the sixteen hot words.
    assert forall|c: int| 0 <= c < quotient.hot@.len() implies (hot[c] <==> head_set.contains(c)) by {
        if hot[c] {
            let (w, p) = choose|w: int, p: int| 0 <= w < 16 && 0 <= p < 24 && chart_class(w, p) == c;
            assert(perms.contains(p as usize));
            let j = choose|j: int| 0 <= j < perms.len() && perms[j] == p as usize;
            assert(quotient.class@[w][perms[j] as int] as int == c);
        }
        if head_set.contains(c) {
            let (w, j) = choose|w: int, j: int| 0 <= w < 16 && 0 <= j < perms.len() && quotient.class@[w][perms[j] as int] as int == c;
            assert(chart_class(w, perms[j] as int) == c);
        }
    }
    assert(classes_of(quotient, 16, cold) =~= cold_set.difference(head_set)) by {
        assert forall|c: int| cold_set.contains(c) implies (hot[c] <==> head_set.contains(c)) by {
            let (w, j) = choose|w: int, j: int| 16 <= w < n_words && 0 <= j < perms.len() && quotient.class@[w][perms[j] as int] as int == c;
        }
    }
    assert(head_set + cold_set.difference(head_set) =~= whole_set) by {
        assert forall|c: int| whole_set.contains(c) implies head_set.contains(c) || cold_set.contains(c) by {
            let (w, j) = choose|w: int, j: int| 0 <= w < n_words && 0 <= j < perms.len() && quotient.class@[w][perms[j] as int] as int == c;
            if w < 16 {
                assert(head_set.contains(c));
            } else {
                assert(cold_set.contains(c));
            }
        }
    }
}

/// The sixteen high-volume closed-boundary charts `(order, word)` of the
/// production cover scan, in decreasing measured cell volume (an
/// acceleration peel over the sixteen hot words).
pub open spec fn boundary_head_spec() -> Seq<(usize, usize)> {
    seq![
        (14usize, 7usize), (6, 2), (18, 7), (7, 3), (1, 13), (6, 13), (3, 3), (0, 4),
        (20, 8), (0, 8), (12, 0), (10, 8), (21, 3), (16, 1), (6, 4), (13, 6),
    ]
}

/// The production cover order: every entry names one of the 24 orders and
/// one of the sixteen hot words.
pub fn boundary_head() -> (order: Vec<(usize, usize)>)
    ensures
        order@ == boundary_head_spec(),
        forall|i: int| 0 <= i < order@.len() ==> (#[trigger] order@[i]).0 < 24 && order@[i].1 < 16,
{
    let order: Vec<(usize, usize)> = vec![
        (14, 7), (6, 2), (18, 7), (7, 3), (1, 13), (6, 13), (3, 3), (0, 4),
        (20, 8), (0, 8), (12, 0), (10, 8), (21, 3), (16, 1), (6, 4), (13, 6),
    ];
    assert(order@ =~= boundary_head_spec());
    order
}

/// Bisection steps taken by the bracketed real-root refinement, for
/// measuring the root isolator.
pub struct RefineCounter {
    pub iters: u64,
}

/// A counter at zero.
pub fn new_refine_counter() -> (counter: RefineCounter)
    ensures
        counter.iters == 0,
{
    RefineCounter { iters: 0 }
}

/// Counts one bisection step.
pub fn count_refine_step(counter: &mut RefineCounter)
    requires
        old(counter).iters < u64::MAX,
    ensures
        final(counter).iters == old(counter).iters + 1,
{
    counter.iters = counter.iters + 1;
}

/// The bisection steps counted so far.
pub fn refine_iters(counter: &RefineCounter) -> (iters: u64)
    ensures
        iters == counter.iters,
{
    counter.iters
}

} // verus!
