//! The finite labelled orbit of axis charts used by the residual axis tier.
use vstd::prelude::*;
use crate::permutations::heap_table;

verus! {

/// `(axis row, pinned gate pair, pendant gate label, reference gate label)`.
pub type Chart = (usize, (usize, usize), usize, usize);

/// Number of labelled charts in the finite axis orbit.
pub const ORBIT_LEN: usize = 24;

/// The six unordered column pairs in lexicographic order.
pub open spec fn column_pair(k: int) -> (usize, usize) {
    if k == 0 {
        (0, 1)
    } else if k == 1 {
        (0, 2)
    } else if k == 2 {
        (0, 3)
    } else if k == 3 {
        (1, 2)
    } else if k == 4 {
        (1, 3)
    } else {
        (2, 3)
    }
}

/// The chart with orbit label `index`: axis `index / 6`, pinned pair
/// `index % 6`, and the two remaining columns in increasing order (which is
/// exactly the complementary pair `5 - index % 6`).
pub open spec fn orbit_chart_spec(index: int) -> Chart {
    let pair = column_pair(index % 6);
    let rest = column_pair(5 - index % 6);
    ((index / 6) as usize, pair, rest.0, rest.1)
}

/// The chart labelled `index` in the finite axis orbit.
pub fn orbit_chart(index: usize) -> (chart: Chart)
    ensures
        chart == orbit_chart_spec(index as int),
{
    let axis = index / 6;
    let k = index % 6;
    let pair: (usize, usize) = if k == 0 {
        (0, 1)
    } else if k == 1 {
        (0, 2)
    } else if k == 2 {
        (0, 3)
    } else if k == 3 {
        (1, 2)
    } else if k == 4 {
        (1, 3)
    } else {
        (2, 3)
    };
    let mut rest: [usize; 2] = [usize::MAX, usize::MAX];
    let mut nrest: usize = 0;
    let mut column: usize = 0;
    while column < 4
        invariant
            column <= 4,
            pair == column_pair(k as int),
            k < 6,
            nrest <= 2,
            nrest == (if column > pair.0 { column - 1 } else { column as int }) - (if column > pair.1 { 1int } else { 0 }),
            nrest >= 1 ==> rest[0] == column_pair(5 - k as int).0,
            nrest >= 2 ==> rest[1] == column_pair(5 - k as int).1,
        decreases 4 - column,
    {
        if column != pair.0 && column != pair.1 {
            rest[nrest] = column;
            nrest = nrest + 1;
        }
        column = column + 1;
    }
    (axis, pair, rest[0], rest[1])
}

/// Every chart of the finite axis orbit is well formed (axis row below four,
/// pinned pair of two different columns, pendant and reference outside the
/// pair and different from each other), and the 24 labels give 24 different
/// charts.
pub proof fn lemma_orbit_charts_valid_and_distinct()
    ensures
        forall|i: int|
            0 <= i < ORBIT_LEN ==> {
                let c = #[trigger] orbit_chart_spec(i);
                &&& c.0 < 4
                &&& c.1.0 != c.1.1
                &&& c.2 != c.1.0 && c.2 != c.1.1
                &&& c.3 != c.1.0 && c.3 != c.1.1
                &&& c.2 != c.3
            },
        forall|i: int, j: int|
            0 <= i < ORBIT_LEN && 0 <= j < ORBIT_LEN && i != j ==> orbit_chart_spec(i)
                != orbit_chart_spec(j),
{
    assert forall|i: int, j: int|
        0 <= i < ORBIT_LEN && 0 <= j < ORBIT_LEN && i != j implies orbit_chart_spec(i)
        != orbit_chart_spec(j) by {
        if orbit_chart_spec(i) == orbit_chart_spec(j) {
            assert(i / 6 == j / 6);
            assert(column_pair(i % 6) == column_pair(j % 6));
            assert(i % 6 == j % 6);
            assert(i == 6 * (i / 6) + i % 6);
            assert(j == 6 * (j / 6) + j % 6);
        }
    }
}

/// The three core rows of an axis chart: the rows other than `axis`, in
/// increasing order.
pub fn core_rows(axis: usize) -> (core: [usize; 3])
    requires
        axis < 4,
    ensures
        core[0] < core[1] < core[2] < 4,
        core[0] != axis && core[1] != axis && core[2] != axis,
{
    let mut core: [usize; 3] = [0; 3];
    let mut n: usize = 0;
    let mut k: usize = 0;
    while k < 4
        invariant
            k <= 4,
            axis < 4,
            n == (if k > axis { k - 1 } else { k as int }),
            n >= 1 ==> core[0] == (if axis == 0 { 1usize } else { 0usize }),
            n >= 2 ==> core[1] == (if axis <= 1 { 2usize } else { 1usize }),
            n >= 3 ==> core[2] == (if axis <= 2 { 3usize } else { 2usize }),
        decreases 4 - k,
    {
        if k != axis {
            core[n] = k;
            n = n + 1;
        }
        k = k + 1;
    }
    core
}

/// An order is a vertex of the chart's Birkhoff face: its axis row avoids
/// the pinned pair, and, for a zero-weight boundary `(row, column)`, its
/// `row` avoids `column` too.
pub open spec fn face_vertex(p: [usize; 4], chart: Chart, zero: Option<(usize, usize)>) -> bool {
    let (axis, pair, _, _) = chart;
    &&& p[axis as int] != pair.0
    &&& p[axis as int] != pair.1
    &&& match zero {
        Some((row, column)) => p[row as int] != column,
        None => true,
    }
}

/// The face vertices among the first `n` orders of `table`, in table order.
pub open spec fn face_vertices_upto(table: Seq<[usize; 4]>, chart: Chart, zero: Option<(usize, usize)>, n: nat) -> Seq<[usize; 4]>
    decreases n,
{
    if n == 0 {
        Seq::empty()
    } else {
        face_vertices_upto(table, chart, zero, (n - 1) as nat) + if face_vertex(table[n - 1], chart, zero) {
            seq![table[n - 1]]
        } else {
            Seq::empty()
        }
    }
}

/// The permutation vertices of the Birkhoff face a labelled axis chart
/// confines the orthostochastic matrix to, in the order of `table`: the
/// orders whose axis row avoids the pinned pair (twelve of the 24), and on
/// a zero-weight boundary `(row, column)` also avoid that entry (eight).
pub fn face_vertices(table: &Vec<[usize; 4]>, chart: Chart, zero: Option<(usize, usize)>) -> (vertices: Vec<[usize; 4]>)
    requires
        chart.0 < 4,
        match zero {
            Some((row, _)) => row < 4,
            None => true,
        },
    ensures
        vertices@ == face_vertices_upto(table@, chart, zero, table@.len()),
        vertices@ == table@.filter(|p: [usize; 4]|
            p[chart.0 as int] != chart.1.0 && p[chart.0 as int] != chart.1.1 && match zero {
                Some((row, column)) => p[row as int] != column,
                None => true,
            }),
        forall|p: [usize; 4]| #[trigger] vertices@.contains(p) <==> (table@.contains(p)
            && p[chart.0 as int] != chart.1.0
            && p[chart.0 as int] != chart.1.1
            && match zero {
                Some((row, column)) => p[row as int] != column,
                None => true,
            }),
{
    proof {
        lemma_face_vertices_are_the_face(table@, chart, zero, table@.len());
        lemma_face_vertices_filter(table@, chart, zero, table@.len());
        assert(table@.take(table@.len() as int) =~= table@);
    }
    let (axis, pair, _, _) = chart;
    let mut vertices: Vec<[usize; 4]> = Vec::new();
    let mut i: usize = 0;
    while i < table.len()
        invariant
            i <= table@.len(),
            axis == chart.0 < 4,
            pair == chart.1,
            match zero {
                Some((row, _)) => row < 4,
                None => true,
            },
            vertices@ == face_vertices_upto(table@, chart, zero, i as nat),
        decreases table@.len() - i,
    {
        let p = table[i];
        let allowed = p[axis] != pair.0 && p[axis] != pair.1 && match zero {
            Some((row, column)) => p[row] != column,
            None => true,
        };
        if allowed {
            vertices.push(p);
        }
        i = i + 1;
    }
    vertices
}

/// The face vertices among the first `n` orders are those orders, in table
/// order, whose axis row avoids both labels of the pinned pair and, on a
/// zero-weight boundary `(row, column)`, whose `row` avoids `column`.
pub proof fn lemma_face_vertices_filter(table: Seq<[usize; 4]>, chart: Chart, zero: Option<(usize, usize)>, n: nat)
    requires
        n <= table.len(),
    ensures
        face_vertices_upto(table, chart, zero, n) == table.take(n as int).filter(|p: [usize; 4]|
            p[chart.0 as int] != chart.1.0 && p[chart.0 as int] != chart.1.1 && match zero {
                Some((row, column)) => p[row as int] != column,
                None => true,
            }),
    decreases n,
{
    reveal(Seq::filter);
    if n > 0 {
        lemma_face_vertices_filter(table, chart, zero, (n - 1) as nat);
        assert(table.take(n as int).drop_last() =~= table.take(n - 1));
        assert(table.take(n as int).last() == table[n - 1]);
        let pred = |p: [usize; 4]|
            p[chart.0 as int] != chart.1.0 && p[chart.0 as int] != chart.1.1 && match zero {
                Some((row, column)) => p[row as int] != column,
                None => true,
            };
        assert(face_vertex(table[n - 1], chart, zero) == pred(table[n - 1]));
        assert(face_vertices_upto(table, chart, zero, n) =~= table.take(n as int).filter(pred));
    }
}

/// The vertices of a chart's face are exactly the orders of the table whose
/// axis row avoids both labels of the pinned pair; on a zero-weight boundary
/// `(row, column)` they are exactly those that also keep `row` off `column`.
/// So the boundary face is the chart face cut by the one extra zero, and each
/// vertex appears where it stands in the table.
pub proof fn lemma_face_vertices_are_the_face(table: Seq<[usize; 4]>, chart: Chart, zero: Option<(usize, usize)>, n: nat)
    requires
        n <= table.len(),
    ensures
        forall|p: [usize; 4]| #[trigger] face_vertices_upto(table, chart, zero, n).contains(p) <==> (
            (exists|i: int| 0 <= i < n && table[i] == p)
            && p[chart.0 as int] != chart.1.0
            && p[chart.0 as int] != chart.1.1
            && match zero {
                Some((row, column)) => p[row as int] != column,
                None => true,
            }),
        forall|a: int| 0 <= a < face_vertices_upto(table, chart, zero, n).len() ==> exists|i: int| 0 <= i < n
            && table[i] == #[trigger] face_vertices_upto(table, chart, zero, n)[a],
        match zero {
            Some(_) => forall|p: [usize; 4]| #[trigger] face_vertices_upto(table, chart, zero, n).contains(p)
                ==> face_vertices_upto(table, chart, None, n).contains(p),
            None => true,
        },
    decreases n,
{
    if n > 0 {
        lemma_face_vertices_are_the_face(table, chart, zero, (n - 1) as nat);
        lemma_face_vertices_are_the_face(table, chart, None, (n - 1) as nat);
        let prev = face_vertices_upto(table, chart, zero, (n - 1) as nat);
        let now = face_vertices_upto(table, chart, zero, n);
        let prev0 = face_vertices_upto(table, chart, None, (n - 1) as nat);
        let now0 = face_vertices_upto(table, chart, None, n);
        let last = table[n - 1];
        assert forall|p: [usize; 4]| #[trigger] now.contains(p) <==> (
            (exists|i: int| 0 <= i < n && table[i] == p)
            && p[chart.0 as int] != chart.1.0
            && p[chart.0 as int] != chart.1.1
            && match zero {
                Some((row, column)) => p[row as int] != column,
                None => true,
            }) by {
            if now.contains(p) {
                let a = choose|a: int| 0 <= a < now.len() && now[a] == p;
                if a < prev.len() {
                    assert(prev[a] == p);
                    assert(prev.contains(p));
                } else {
                    assert(p == last);
                }
            }
            if (exists|i: int| 0 <= i < n && table[i] == p) && face_vertex(p, chart, zero) {
                let i = choose|i: int| 0 <= i < n && table[i] == p;
                if i < n - 1 {
                    assert(prev.contains(p));
                    let a = choose|a: int| 0 <= a < prev.len() && prev[a] == p;
                    assert(now[a] == p);
                } else {
                    assert(now[prev.len() as int] == p);
                }
            }
        }
        assert forall|a: int| 0 <= a < now.len() implies exists|i: int| 0 <= i < n && table[i] == #[trigger] now[a] by {
            if a < prev.len() {
                assert(now[a] == prev[a]);
                let i = choose|i: int| 0 <= i < n - 1 && table[i] == prev[a];
            } else {
                assert(now[a] == last);
            }
        }
        if zero is Some {
            assert forall|p: [usize; 4]| #[trigger] now.contains(p) implies now0.contains(p) by {
                let a = choose|a: int| 0 <= a < now.len() && now[a] == p;
                if a < prev.len() {
                    assert(prev[a] == p);
                    assert(prev.contains(p));
                    assert(prev0.contains(p));
                    let b = choose|b: int| 0 <= b < prev0.len() && prev0[b] == p;
                    assert(now0[b] == p);
                } else {
                    assert(p == last);
                    assert(now0[prev0.len() as int] == p);
                }
            }
        }
    }
}

/// The 24 Heap orders.
pub open spec fn all_orders() -> Seq<[usize; 4]> {
    Seq::new(24, |j: int| heap_table(j))
}

/// How many of the first `n` Heap orders are face vertices.
pub open spec fn vertex_count(chart: Chart, zero: Option<(usize, usize)>, n: nat) -> nat
    decreases n,
{
    if n == 0 {
        0
    } else {
        vertex_count(chart, zero, (n - 1) as nat) + if face_vertex(heap_table(n - 1), chart, zero) { 1nat } else { 0nat }
    }
}

proof fn lemma_vertex_count_is_len(chart: Chart, zero: Option<(usize, usize)>, n: nat)
    requires
        n <= 24,
    ensures
        face_vertices_upto(all_orders(), chart, zero, n).len() == vertex_count(chart, zero, n),
    decreases n,
{
    if n > 0 {
        lemma_vertex_count_is_len(chart, zero, (n - 1) as nat);
    }
}

/// The face vertex counts of orbit chart 0.
#[verifier::spinoff_prover]
proof fn lemma_face_counts_0()
    ensures
        ({
            let chart = (0usize, (0usize, 1usize), 2usize, 3usize);
            &&& vertex_count(chart, None, 24) == 12
            &&& forall|row: usize, column: usize| row < 4 && row != 0 && (column == 0 || column == 1)
                ==> #[trigger] vertex_count(chart, Some((row, column)), 24) == 8
        }),
{
    let chart = (0usize, (0usize, 1usize), 2usize, 3usize);
    assert(vertex_count(chart, None, 24) == 12) by { reveal_with_fuel(vertex_count, 25) }
    assert(vertex_count(chart, Some((1usize, 0usize)), 24) == 8) by { reveal_with_fuel(vertex_count, 25) }
    assert(vertex_count(chart, Some((1usize, 1usize)), 24) == 8) by { reveal_with_fuel(vertex_count, 25) }
    assert(vertex_count(chart, Some((2usize, 0usize)), 24) == 8) by { reveal_with_fuel(vertex_count, 25) }
    assert(vertex_count(chart, Some((2usize, 1usize)), 24) == 8) by { reveal_with_fuel(vertex_count, 25) }
    assert(vertex_count(chart, Some((3usize, 0usize)), 24) == 8) by { reveal_with_fuel(vertex_count, 25) }
    assert(vertex_count(chart, Some((3usize, 1usize)), 24) == 8) by { reveal_with_fuel(vertex_count, 25) }
}

/// The face vertex counts of orbit chart 1.
#[verifier::spinoff_prover]
proof fn lemma_face_counts_1()
    ensures
        ({
            let chart = (0usize, (0usize, 2usize), 1usize, 3usize);
            &&& vertex_count(chart, None, 24) == 12
            &&& forall|row: usize, column: usize| row < 4 && row != 0 && (column == 0 || column == 2)
                ==> #[trigger] vertex_count(chart, Some((row, column)), 24) == 8
        }),
{
    let chart = (0usize, (0usize, 2usize), 1usize, 3usize);
    assert(vertex_count(chart, None, 24) == 12) by { reveal_with_fuel(vertex_count, 25) }
    assert(vertex_count(chart, Some((1usize, 0usize)), 24) == 8) by { reveal_with_fuel(vertex_count, 25) }
    assert(vertex_count(chart, Some((1usize, 2usize)), 24) == 8) by { reveal_with_fuel(vertex_count, 25) }
    assert(vertex_count(chart, Some((2usize, 0usize)), 24) == 8) by { reveal_with_fuel(vertex_count, 25) }
    assert(vertex_count(chart, Some((2usize, 2usize)), 24) == 8) by { reveal_with_fuel(vertex_count, 25) }
    assert(vertex_count(chart, Some((3usize, 0usize)), 24) == 8) by { reveal_with_fuel(vertex_count, 25) }
    assert(vertex_count(chart, Some((3usize, 2usize)), 24) == 8) by { reveal_with_fuel(vertex_count, 25) }
}

/// The face vertex counts of orbit chart 2.
#[verifier::spinoff_prover]
proof fn lemma_face_counts_2()
    ensures
        ({
            let chart = (0usize, (0usize, 3usize), 1usize, 2usize);
            &&& vertex_count(chart, None, 24) == 12
            &&& forall|row: usize, column: usize| row < 4 && row != 0 && (column == 0 || column == 3)
                ==> #[trigger] vertex_count(chart, Some((row, column)), 24) == 8
        }),
{
    let chart = (0usize, (0usize, 3usize), 1usize, 2usize);
    assert(vertex_count(chart, None, 24) == 12) by { reveal_with_fuel(vertex_count, 25) }
    assert(vertex_count(chart, Some((1usize, 0usize)), 24) == 8) by { reveal_with_fuel(vertex_count, 25) }
    assert(vertex_count(chart, Some((1usize, 3usize)), 24) == 8) by { reveal_with_fuel(vertex_count, 25) }
    assert(vertex_count(chart, Some((2usize, 0usize)), 24) == 8) by { reveal_with_fuel(vertex_count, 25) }
    assert(vertex_count(chart, Some((2usize, 3usize)), 24) == 8) by { reveal_with_fuel(vertex_count, 25) }
    assert(vertex_count(chart, Some((3usize, 0usize)), 24) == 8) by { reveal_with_fuel(vertex_count, 25) }
    assert(vertex_count(chart, Some((3usize, 3usize)), 24) == 8) by { reveal_with_fuel(vertex_count, 25) }
}

/// The face vertex counts of orbit chart 3.
#[verifier::spinoff_prover]
proof fn lemma_face_counts_3()
    ensures
        ({
            let chart = (0usize, (1usize, 2usize), 0usize, 3usize);
            &&& vertex_count(chart, None, 24) == 12
            &&& forall|row: usize, column: usize| row < 4 && row != 0 && (column == 1 || column == 2)
                ==> #[trigger] vertex_count(chart, Some((row, column)), 24) == 8
        }),
{
    let chart = (0usize, (1usize, 2usize), 0usize, 3usize);
    assert(vertex_count(chart, None, 24) == 12) by { reveal_with_fuel(vertex_count, 25) }
    assert(vertex_count(chart, Some((1usize, 1usize)), 24) == 8) by { reveal_with_fuel(vertex_count, 25) }
    assert(vertex_count(chart, Some((1usize, 2usize)), 24) == 8) by { reveal_with_fuel(vertex_count, 25) }
    assert(vertex_count(chart, Some((2usize, 1usize)), 24) == 8) by { reveal_with_fuel(vertex_count, 25) }
    assert(vertex_count(chart, Some((2usize, 2usize)), 24) == 8) by { reveal_with_fuel(vertex_count, 25) }
    assert(vertex_count(chart, Some((3usize, 1usize)), 24) == 8) by { reveal_with_fuel(vertex_count, 25) }
    assert(vertex_count(chart, Some((3usize, 2usize)), 24) == 8) by { reveal_with_fuel(vertex_count, 25) }
}

/// The face vertex counts of orbit chart 4.
#[verifier::spinoff_prover]
proof fn lemma_face_counts_4()
    ensures
        ({
            let chart = (0usize, (1usize, 3usize), 0usize, 2usize);
            &&& vertex_count(chart, None, 24) == 12
            &&& forall|row: usize, column: usize| row < 4 && row != 0 && (column == 1 || column == 3)
                ==> #[trigger] vertex_count(chart, Some((row, column)), 24) == 8
        }),
{
    let chart = (0usize, (1usize, 3usize), 0usize, 2usize);
    assert(vertex_count(chart, None, 24) == 12) by { reveal_with_fuel(vertex_count, 25) }
    assert(vertex_count(chart, Some((1usize, 1usize)), 24) == 8) by { reveal_with_fuel(vertex_count, 25) }
    assert(vertex_count(chart, Some((1usize, 3usize)), 24) == 8) by { reveal_with_fuel(vertex_count, 25) }
    assert(vertex_count(chart, Some((2usize, 1usize)), 24) == 8) by { reveal_with_fuel(vertex_count, 25) }
    assert(vertex_count(chart, Some((2usize, 3usize)), 24) == 8) by { reveal_with_fuel(vertex_count, 25) }
    assert(vertex_count(chart, Some((3usize, 1usize)), 24) == 8) by { reveal_with_fuel(vertex_count, 25) }
    assert(vertex_count(chart, Some((3usize, 3usize)), 24) == 8) by { reveal_with_fuel(vertex_count, 25) }
}

/// The face vertex counts of orbit chart 5.
#[verifier::spinoff_prover]
proof fn lemma_face_counts_5()
    ensures
        ({
            let chart = (0usize, (2usize, 3usize), 0usize, 1usize);
            &&& vertex_count(chart, None, 24) == 12
            &&& forall|row: usize, column: usize| row < 4 && row != 0 && (column == 2 || column == 3)
                ==> #[trigger] vertex_count(chart, Some((row, column)), 24) == 8
        }),
{
    let chart = (0usize, (2usize, 3usize), 0usize, 1usize);
    assert(vertex_count(chart, None, 24) == 12) by { reveal_with_fuel(vertex_count, 25) }
    assert(vertex_count(chart, Some((1usize, 2usize)), 24) == 8) by { reveal_with_fuel(vertex_count, 25) }
    assert(vertex_count(chart, Some((1usize, 3usize)), 24) == 8) by { reveal_with_fuel(vertex_count, 25) }
    assert(vertex_count(chart, Some((2usize, 2usize)), 24) == 8) by { reveal_with_fuel(vertex_count, 25) }
    assert(vertex_count(chart, Some((2usize, 3usize)), 24) == 8) by { reveal_with_fuel(vertex_count, 25) }
    assert(vertex_count(chart, Some((3usize, 2usize)), 24) == 8) by { reveal_with_fuel(vertex_count, 25) }
    assert(vertex_count(chart, Some((3usize, 3usize)), 24) == 8) by { reveal_with_fuel(vertex_count, 25) }
}

/// The face vertex counts of orbit chart 6.
#[verifier::spinoff_prover]
proof fn lemma_face_counts_6()
    ensures
        ({
            let chart = (1usize, (0usize, 1usize), 2usize, 3usize);
            &&& vertex_count(chart, None, 24) == 12
            &&& forall|row: usize, column: usize| row < 4 && row != 1 && (column == 0 || column == 1)
                ==> #[trigger] vertex_count(chart, Some((row, column)), 24) == 8
        }),
{
    let chart = (1usize, (0usize, 1usize), 2usize, 3usize);
    assert(vertex_count(chart, None, 24) == 12) by { reveal_with_fuel(vertex_count, 25) }
    assert(vertex_count(chart, Some((0usize, 0usize)), 24) == 8) by { reveal_with_fuel(vertex_count, 25) }
    assert(vertex_count(chart, Some((0usize, 1usize)), 24) == 8) by { reveal_with_fuel(vertex_count, 25) }
    assert(vertex_count(chart, Some((2usize, 0usize)), 24) == 8) by { reveal_with_fuel(vertex_count, 25) }
    assert(vertex_count(chart, Some((2usize, 1usize)), 24) == 8) by { reveal_with_fuel(vertex_count, 25) }
    assert(vertex_count(chart, Some((3usize, 0usize)), 24) == 8) by { reveal_with_fuel(vertex_count, 25) }
    assert(vertex_count(chart, Some((3usize, 1usize)), 24) == 8) by { reveal_with_fuel(vertex_count, 25) }
}

/// The face vertex counts of orbit chart 7.
#[verifier::spinoff_prover]
proof fn lemma_face_counts_7()
    ensures
        ({
            let chart = (1usize, (0usize, 2usize), 1usize, 3usize);
            &&& vertex_count(chart, None, 24) == 12
            &&& forall|row: usize, column: usize| row < 4 && row != 1 && (column == 0 || column == 2)
                ==> #[trigger] vertex_count(chart, Some((row, column)), 24) == 8
        }),
{
    let chart = (1usize, (0usize, 2usize), 1usize, 3usize);
    assert(vertex_count(chart, None, 24) == 12) by { reveal_with_fuel(vertex_count, 25) }
    assert(vertex_count(chart, Some((0usize, 0usize)), 24) == 8) by { reveal_with_fuel(vertex_count, 25) }
    assert(vertex_count(chart, Some((0usize, 2usize)), 24) == 8) by { reveal_with_fuel(vertex_count, 25) }
    assert(vertex_count(chart, Some((2usize, 0usize)), 24) == 8) by { reveal_with_fuel(vertex_count, 25) }
    assert(vertex_count(chart, Some((2usize, 2usize)), 24) == 8) by { reveal_with_fuel(vertex_count, 25) }
    assert(vertex_count(chart, Some((3usize, 0usize)), 24) == 8) by { reveal_with_fuel(vertex_count, 25) }
    assert(vertex_count(chart, Some((3usize, 2usize)), 24) == 8) by { reveal_with_fuel(vertex_count, 25) }
}

/// The face vertex counts of orbit chart 8.
#[verifier::spinoff_prover]
proof fn lemma_face_counts_8()
    ensures
        ({
            let chart = (1usize, (0usize, 3usize), 1usize, 2usize);
            &&& vertex_count(chart, None, 24) == 12
            &&& forall|row: usize, column: usize| row < 4 && row != 1 && (column == 0 || column == 3)
                ==> #[trigger] vertex_count(chart, Some((row, column)), 24) == 8
        }),
{
    let chart = (1usize, (0usize, 3usize), 1usize, 2usize);
    assert(vertex_count(chart, None, 24) == 12) by { reveal_with_fuel(vertex_count, 25) }
    assert(vertex_count(chart, Some((0usize, 0usize)), 24) == 8) by { reveal_with_fuel(vertex_count, 25) }
    assert(vertex_count(chart, Some((0usize, 3usize)), 24) == 8) by { reveal_with_fuel(vertex_count, 25) }
    assert(vertex_count(chart, Some((2usize, 0usize)), 24) == 8) by { reveal_with_fuel(vertex_count, 25) }
    assert(vertex_count(chart, Some((2usize, 3usize)), 24) == 8) by { reveal_with_fuel(vertex_count, 25) }
    assert(vertex_count(chart, Some((3usize, 0usize)), 24) == 8) by { reveal_with_fuel(vertex_count, 25) }
    assert(vertex_count(chart, Some((3usize, 3usize)), 24) == 8) by { reveal_with_fuel(vertex_count, 25) }
}

/// The face vertex counts of orbit chart 9.
#[verifier::spinoff_prover]
proof fn lemma_face_counts_9()
    ensures
        ({
            let chart = (1usize, (1usize, 2usize), 0usize, 3usize);
            &&& vertex_count(chart, None, 24) == 12
            &&& forall|row: usize, column: usize| row < 4 && row != 1 && (column == 1 || column == 2)
                ==> #[trigger] vertex_count(chart, Some((row, column)), 24) == 8
        }),
{
    let chart = (1usize, (1usize, 2usize), 0usize, 3usize);
    assert(vertex_count(chart, None, 24) == 12) by { reveal_with_fuel(vertex_count, 25) }
    assert(vertex_count(chart, Some((0usize, 1usize)), 24) == 8) by { reveal_with_fuel(vertex_count, 25) }
    assert(vertex_count(chart, Some((0usize, 2usize)), 24) == 8) by { reveal_with_fuel(vertex_count, 25) }
    assert(vertex_count(chart, Some((2usize, 1usize)), 24) == 8) by { reveal_with_fuel(vertex_count, 25) }
    assert(vertex_count(chart, Some((2usize, 2usize)), 24) == 8) by { reveal_with_fuel(vertex_count, 25) }
    assert(vertex_count(chart, Some((3usize, 1usize)), 24) == 8) by { reveal_with_fuel(vertex_count, 25) }
    assert(vertex_count(chart, Some((3usize, 2usize)), 24) == 8) by { reveal_with_fuel(vertex_count, 25) }
}

/// The face vertex counts of orbit chart 10.
#[verifier::spinoff_prover]
proof fn lemma_face_counts_10()
    ensures
        ({
            let chart = (1usize, (1usize, 3usize), 0usize, 2usize);
            &&& vertex_count(chart, None, 24) == 12
            &&& forall|row: usize, column: usize| row < 4 && row != 1 && (column == 1 || column == 3)
                ==> #[trigger] vertex_count(chart, Some((row, column)), 24) == 8
        }),
{
    let chart = (1usize, (1usize, 3usize), 0usize, 2usize);
    assert(vertex_count(chart, None, 24) == 12) by { reveal_with_fuel(vertex_count, 25) }
    assert(vertex_count(chart, Some((0usize, 1usize)), 24) == 8) by { reveal_with_fuel(vertex_count, 25) }
    assert(vertex_count(chart, Some((0usize, 3usize)), 24) == 8) by { reveal_with_fuel(vertex_count, 25) }
    assert(vertex_count(chart, Some((2usize, 1usize)), 24) == 8) by { reveal_with_fuel(vertex_count, 25) }
    assert(vertex_count(chart, Some((2usize, 3usize)), 24) == 8) by { reveal_with_fuel(vertex_count, 25) }
    assert(vertex_count(chart, Some((3usize, 1usize)), 24) == 8) by { reveal_with_fuel(vertex_count, 25) }
    assert(vertex_count(chart, Some((3usize, 3usize)), 24) == 8) by { reveal_with_fuel(vertex_count, 25) }
}

/// The face vertex counts of orbit chart 11.
#[verifier::spinoff_prover]
proof fn lemma_face_counts_11()
    ensures
        ({
            let chart = (1usize, (2usize, 3usize), 0usize, 1usize);
            &&& vertex_count(chart, None, 24) == 12
            &&& forall|row: usize, column: usize| row < 4 && row != 1 && (column == 2 || column == 3)
                ==> #[trigger] vertex_count(chart, Some((row, column)), 24) == 8
        }),
{
    let chart = (1usize, (2usize, 3usize), 0usize, 1usize);
    assert(vertex_count(chart, None, 24) == 12) by { reveal_with_fuel(vertex_count, 25) }
    assert(vertex_count(chart, Some((0usize, 2usize)), 24) == 8) by { reveal_with_fuel(vertex_count, 25) }
    assert(vertex_count(chart, Some((0usize, 3usize)), 24) == 8) by { reveal_with_fuel(vertex_count, 25) }
    assert(vertex_count(chart, Some((2usize, 2usize)), 24) == 8) by { reveal_with_fuel(vertex_count, 25) }
    assert(vertex_count(chart, Some((2usize, 3usize)), 24) == 8) by { reveal_with_fuel(vertex_count, 25) }
    assert(vertex_count(chart, Some((3usize, 2usize)), 24) == 8) by { reveal_with_fuel(vertex_count, 25) }
    assert(vertex_count(chart, Some((3usize, 3usize)), 24) == 8) by { reveal_with_fuel(vertex_count, 25) }
}

/// The face vertex counts of orbit chart 12.
#[verifier::spinoff_prover]
proof fn lemma_face_counts_12()
    ensures
        ({
            let chart = (2usize, (0usize, 1usize), 2usize, 3usize);
            &&& vertex_count(chart, None, 24) == 12
            &&& forall|row: usize, column: usize| row < 4 && row != 2 && (column == 0 || column == 1)
                ==> #[trigger] vertex_count(chart, Some((row, column)), 24) == 8
        }),
{
    let chart = (2usize, (0usize, 1usize), 2usize, 3usize);
    assert(vertex_count(chart, None, 24) == 12) by { reveal_with_fuel(vertex_count, 25) }
    assert(vertex_count(chart, Some((0usize, 0usize)), 24) == 8) by { reveal_with_fuel(vertex_count, 25) }
    assert(vertex_count(chart, Some((0usize, 1usize)), 24) == 8) by { reveal_with_fuel(vertex_count, 25) }
    assert(vertex_count(chart, Some((1usize, 0usize)), 24) == 8) by { reveal_with_fuel(vertex_count, 25) }
    assert(vertex_count(chart, Some((1usize, 1usize)), 24) == 8) by { reveal_with_fuel(vertex_count, 25) }
    assert(vertex_count(chart, Some((3usize, 0usize)), 24) == 8) by { reveal_with_fuel(vertex_count, 25) }
    assert(vertex_count(chart, Some((3usize, 1usize)), 24) == 8) by { reveal_with_fuel(vertex_count, 25) }
}

/// The face vertex counts of orbit chart 13.
#[verifier::spinoff_prover]
proof fn lemma_face_counts_13()
    ensures
        ({
            let chart = (2usize, (0usize, 2usize), 1usize, 3usize);
            &&& vertex_count(chart, None, 24) == 12
            &&& forall|row: usize, column: usize| row < 4 && row != 2 && (column == 0 || column == 2)
                ==> #[trigger] vertex_count(chart, Some((row, column)), 24) == 8
        }),
{
    let chart = (2usize, (0usize, 2usize), 1usize, 3usize);
    assert(vertex_count(chart, None, 24) == 12) by { reveal_with_fuel(vertex_count, 25) }
    assert(vertex_count(chart, Some((0usize, 0usize)), 24) == 8) by { reveal_with_fuel(vertex_count, 25) }
    assert(vertex_count(chart, Some((0usize, 2usize)), 24) == 8) by { reveal_with_fuel(vertex_count, 25) }
    assert(vertex_count(chart, Some((1usize, 0usize)), 24) == 8) by { reveal_with_fuel(vertex_count, 25) }
    assert(vertex_count(chart, Some((1usize, 2usize)), 24) == 8) by { reveal_with_fuel(vertex_count, 25) }
    assert(vertex_count(chart, Some((3usize, 0usize)), 24) == 8) by { reveal_with_fuel(vertex_count, 25) }
    assert(vertex_count(chart, Some((3usize, 2usize)), 24) == 8) by { reveal_with_fuel(vertex_count, 25) }
}

/// The face vertex counts of orbit chart 14.
#[verifier::spinoff_prover]
proof fn lemma_face_counts_14()
    ensures
        ({
            let chart = (2usize, (0usize, 3usize), 1usize, 2usize);
            &&& vertex_count(chart, None, 24) == 12
            &&& forall|row: usize, column: usize| row < 4 && row != 2 && (column == 0 || column == 3)
                ==> #[trigger] vertex_count(chart, Some((row, column)), 24) == 8
        }),
{
    let chart = (2usize, (0usize, 3usize), 1usize, 2usize);
    assert(vertex_count(chart, None, 24) == 12) by { reveal_with_fuel(vertex_count, 25) }
    assert(vertex_count(chart, Some((0usize, 0usize)), 24) == 8) by { reveal_with_fuel(vertex_count, 25) }
    assert(vertex_count(chart, Some((0usize, 3usize)), 24) == 8) by { reveal_with_fuel(vertex_count, 25) }
    assert(vertex_count(chart, Some((1usize, 0usize)), 24) == 8) by { reveal_with_fuel(vertex_count, 25) }
    assert(vertex_count(chart, Some((1usize, 3usize)), 24) == 8) by { reveal_with_fuel(vertex_count, 25) }
    assert(vertex_count(chart, Some((3usize, 0usize)), 24) == 8) by { reveal_with_fuel(vertex_count, 25) }
    assert(vertex_count(chart, Some((3usize, 3usize)), 24) == 8) by { reveal_with_fuel(vertex_count, 25) }
}

/// The face vertex counts of orbit chart 15.
#[verifier::spinoff_prover]
proof fn lemma_face_counts_15()
    ensures
        ({
            let chart = (2usize, (1usize, 2usize), 0usize, 3usize);
            &&& vertex_count(chart, None, 24) == 12
            &&& forall|row: usize, column: usize| row < 4 && row != 2 && (column == 1 || column == 2)
                ==> #[trigger] vertex_count(chart, Some((row, column)), 24) == 8
        }),
{
    let chart = (2usize, (1usize, 2usize), 0usize, 3usize);
    assert(vertex_count(chart, None, 24) == 12) by { reveal_with_fuel(vertex_count, 25) }
    assert(vertex_count(chart, Some((0usize, 1usize)), 24) == 8) by { reveal_with_fuel(vertex_count, 25) }
    assert(vertex_count(chart, Some((0usize, 2usize)), 24) == 8) by { reveal_with_fuel(vertex_count, 25) }
    assert(vertex_count(chart, Some((1usize, 1usize)), 24) == 8) by { reveal_with_fuel(vertex_count, 25) }
    assert(vertex_count(chart, Some((1usize, 2usize)), 24) == 8) by { reveal_with_fuel(vertex_count, 25) }
    assert(vertex_count(chart, Some((3usize, 1usize)), 24) == 8) by { reveal_with_fuel(vertex_count, 25) }
    assert(vertex_count(chart, Some((3usize, 2usize)), 24) == 8) by { reveal_with_fuel(vertex_count, 25) }
}

/// The face vertex counts of orbit chart 16.
#[verifier::spinoff_prover]
proof fn lemma_face_counts_16()
    ensures
        ({
            let chart = (2usize, (1usize, 3usize), 0usize, 2usize);
            &&& vertex_count(chart, None, 24) == 12
            &&& forall|row: usize, column: usize| row < 4 && row != 2 && (column == 1 || column == 3)
                ==> #[trigger] vertex_count(chart, Some((row, column)), 24) == 8
        }),
{
    let chart = (2usize, (1usize, 3usize), 0usize, 2usize);
    assert(vertex_count(chart, None, 24) == 12) by { reveal_with_fuel(vertex_count, 25) }
    assert(vertex_count(chart, Some((0usize, 1usize)), 24) == 8) by { reveal_with_fuel(vertex_count, 25) }
    assert(vertex_count(chart, Some((0usize, 3usize)), 24) == 8) by { reveal_with_fuel(vertex_count, 25) }
    assert(vertex_count(chart, Some((1usize, 1usize)), 24) == 8) by { reveal_with_fuel(vertex_count, 25) }
    assert(vertex_count(chart, Some((1usize, 3usize)), 24) == 8) by { reveal_with_fuel(vertex_count, 25) }
    assert(vertex_count(chart, Some((3usize, 1usize)), 24) == 8) by { reveal_with_fuel(vertex_count, 25) }
    assert(vertex_count(chart, Some((3usize, 3usize)), 24) == 8) by { reveal_with_fuel(vertex_count, 25) }
}

/// The face vertex counts of orbit chart 17.
#[verifier::spinoff_prover]
proof fn lemma_face_counts_17()
    ensures
        ({
            let chart = (2usize, (2usize, 3usize), 0usize, 1usize);
            &&& vertex_count(chart, None, 24) == 12
            &&& forall|row: usize, column: usize| row < 4 && row != 2 && (column == 2 || column == 3)
                ==> #[trigger] vertex_count(chart, Some((row, column)), 24) == 8
        }),
{
    let chart = (2usize, (2usize, 3usize), 0usize, 1usize);
    assert(vertex_count(chart, None, 24) == 12) by { reveal_with_fuel(vertex_count, 25) }
    assert(vertex_count(chart, Some((0usize, 2usize)), 24) == 8) by { reveal_with_fuel(vertex_count, 25) }
    assert(vertex_count(chart, Some((0usize, 3usize)), 24) == 8) by { reveal_with_fuel(vertex_count, 25) }
    assert(vertex_count(chart, Some((1usize, 2usize)), 24) == 8) by { reveal_with_fuel(vertex_count, 25) }
    assert(vertex_count(chart, Some((1usize, 3usize)), 24) == 8) by { reveal_with_fuel(vertex_count, 25) }
    assert(vertex_count(chart, Some((3usize, 2usize)), 24) == 8) by { reveal_with_fuel(vertex_count, 25) }
    assert(vertex_count(chart, Some((3usize, 3usize)), 24) == 8) by { reveal_with_fuel(vertex_count, 25) }
}

/// The face vertex counts of orbit chart 18.
#[verifier::spinoff_prover]
proof fn lemma_face_counts_18()
    ensures
        ({
            let chart = (3usize, (0usize, 1usize), 2usize, 3usize);
            &&& vertex_count(chart, None, 24) == 12
            &&& forall|row: usize, column: usize| row < 4 && row != 3 && (column == 0 || column == 1)
                ==> #[trigger] vertex_count(chart, Some((row, column)), 24) == 8
        }),
{
    let chart = (3usize, (0usize, 1usize), 2usize, 3usize);
    assert(vertex_count(chart, None, 24) == 12) by { reveal_with_fuel(vertex_count, 25) }
    assert(vertex_count(chart, Some((0usize, 0usize)), 24) == 8) by { reveal_with_fuel(vertex_count, 25) }
    assert(vertex_count(chart, Some((0usize, 1usize)), 24) == 8) by { reveal_with_fuel(vertex_count, 25) }
    assert(vertex_count(chart, Some((1usize, 0usize)), 24) == 8) by { reveal_with_fuel(vertex_count, 25) }
    assert(vertex_count(chart, Some((1usize, 1usize)), 24) == 8) by { reveal_with_fuel(vertex_count, 25) }
    assert(vertex_count(chart, Some((2usize, 0usize)), 24) == 8) by { reveal_with_fuel(vertex_count, 25) }
    assert(vertex_count(chart, Some((2usize, 1usize)), 24) == 8) by { reveal_with_fuel(vertex_count, 25) }
}

/// The face vertex counts of orbit chart 19.
#[verifier::spinoff_prover]
proof fn lemma_face_counts_19()
    ensures
        ({
            let chart = (3usize, (0usize, 2usize), 1usize, 3usize);
            &&& vertex_count(chart, None, 24) == 12
            &&& forall|row: usize, column: usize| row < 4 && row != 3 && (column == 0 || column == 2)
                ==> #[trigger] vertex_count(chart, Some((row, column)), 24) == 8
        }),
{
    let chart = (3usize, (0usize, 2usize), 1usize, 3usize);
    assert(vertex_count(chart, None, 24) == 12) by { reveal_with_fuel(vertex_count, 25) }
    assert(vertex_count(chart, Some((0usize, 0usize)), 24) == 8) by { reveal_with_fuel(vertex_count, 25) }
    assert(vertex_count(chart, Some((0usize, 2usize)), 24) == 8) by { reveal_with_fuel(vertex_count, 25) }
    assert(vertex_count(chart, Some((1usize, 0usize)), 24) == 8) by { reveal_with_fuel(vertex_count, 25) }
    assert(vertex_count(chart, Some((1usize, 2usize)), 24) == 8) by { reveal_with_fuel(vertex_count, 25) }
    assert(vertex_count(chart, Some((2usize, 0usize)), 24) == 8) by { reveal_with_fuel(vertex_count, 25) }
    assert(vertex_count(chart, Some((2usize, 2usize)), 24) == 8) by { reveal_with_fuel(vertex_count, 25) }
}

/// The face vertex counts of orbit chart 20.
#[verifier::spinoff_prover]
proof fn lemma_face_counts_20()
    ensures
        ({
            let chart = (3usize, (0usize, 3usize), 1usize, 2usize);
            &&& vertex_count(chart, None, 24) == 12
            &&& forall|row: usize, column: usize| row < 4 && row != 3 && (column == 0 || column == 3)
                ==> #[trigger] vertex_count(chart, Some((row, column)), 24) == 8
        }),
{
    let chart = (3usize, (0usize, 3usize), 1usize, 2usize);
    assert(vertex_count(chart, None, 24) == 12) by { reveal_with_fuel(vertex_count, 25) }
    assert(vertex_count(chart, Some((0usize, 0usize)), 24) == 8) by { reveal_with_fuel(vertex_count, 25) }
    assert(vertex_count(chart, Some((0usize, 3usize)), 24) == 8) by { reveal_with_fuel(vertex_count, 25) }
    assert(vertex_count(chart, Some((1usize, 0usize)), 24) == 8) by { reveal_with_fuel(vertex_count, 25) }
    assert(vertex_count(chart, Some((1usize, 3usize)), 24) == 8) by { reveal_with_fuel(vertex_count, 25) }
    assert(vertex_count(chart, Some((2usize, 0usize)), 24) == 8) by { reveal_with_fuel(vertex_count, 25) }
    assert(vertex_count(chart, Some((2usize, 3usize)), 24) == 8) by { reveal_with_fuel(vertex_count, 25) }
}

/// The face vertex counts of orbit chart 21.
#[verifier::spinoff_prover]
proof fn lemma_face_counts_21()
    ensures
        ({
            let chart = (3usize, (1usize, 2usize), 0usize, 3usize);
            &&& vertex_count(chart, None, 24) == 12
            &&& forall|row: usize, column: usize| row < 4 && row != 3 && (column == 1 || column == 2)
                ==> #[trigger] vertex_count(chart, Some((row, column)), 24) == 8
        }),
{
    let chart = (3usize, (1usize, 2usize), 0usize, 3usize);
    assert(vertex_count(chart, None, 24) == 12) by { reveal_with_fuel(vertex_count, 25) }
    assert(vertex_count(chart, Some((0usize, 1usize)), 24) == 8) by { reveal_with_fuel(vertex_count, 25) }
    assert(vertex_count(chart, Some((0usize, 2usize)), 24) == 8) by { reveal_with_fuel(vertex_count, 25) }
    assert(vertex_count(chart, Some((1usize, 1usize)), 24) == 8) by { reveal_with_fuel(vertex_count, 25) }
    assert(vertex_count(chart, Some((1usize, 2usize)), 24) == 8) by { reveal_with_fuel(vertex_count, 25) }
    assert(vertex_count(chart, Some((2usize, 1usize)), 24) == 8) by { reveal_with_fuel(vertex_count, 25) }
    assert(vertex_count(chart, Some((2usize, 2usize)), 24) == 8) by { reveal_with_fuel(vertex_count, 25) }
}

/// The face vertex counts of orbit chart 22.
#[verifier::spinoff_prover]
proof fn lemma_face_counts_22()
    ensures
        ({
            let chart = (3usize, (1usize, 3usize), 0usize, 2usize);
            &&& vertex_count(chart, None, 24) == 12
            &&& forall|row: usize, column: usize| row < 4 && row != 3 && (column == 1 || column == 3)
                ==> #[trigger] vertex_count(chart, Some((row, column)), 24) == 8
        }),
{
    let chart = (3usize, (1usize, 3usize), 0usize, 2usize);
    assert(vertex_count(chart, None, 24) == 12) by { reveal_with_fuel(vertex_count, 25) }
    assert(vertex_count(chart, Some((0usize, 1usize)), 24) == 8) by { reveal_with_fuel(vertex_count, 25) }
    assert(vertex_count(chart, Some((0usize, 3usize)), 24) == 8) by { reveal_with_fuel(vertex_count, 25) }
    assert(vertex_count(chart, Some((1usize, 1usize)), 24) == 8) by { reveal_with_fuel(vertex_count, 25) }
    assert(vertex_count(chart, Some((1usize, 3usize)), 24) == 8) by { reveal_with_fuel(vertex_count, 25) }
    assert(vertex_count(chart, Some((2usize, 1usize)), 24) == 8) by { reveal_with_fuel(vertex_count, 25) }
    assert(vertex_count(chart, Some((2usize, 3usize)), 24) == 8) by { reveal_with_fuel(vertex_count, 25) }
}

/// The face vertex counts of orbit chart 23.
#[verifier::spinoff_prover]
proof fn lemma_face_counts_23()
    ensures
        ({
            let chart = (3usize, (2usize, 3usize), 0usize, 1usize);
            &&& vertex_count(chart, None, 24) == 12
            &&& forall|row: usize, column: usize| row < 4 && row != 3 && (column == 2 || column == 3)
                ==> #[trigger] vertex_count(chart, Some((row, column)), 24) == 8
        }),
{
    let chart = (3usize, (2usize, 3usize), 0usize, 1usize);
    assert(vertex_count(chart, None, 24) == 12) by { reveal_with_fuel(vertex_count, 25) }
    assert(vertex_count(chart, Some((0usize, 2usize)), 24) == 8) by { reveal_with_fuel(vertex_count, 25) }
    assert(vertex_count(chart, Some((0usize, 3usize)), 24) == 8) by { reveal_with_fuel(vertex_count, 25) }
    assert(vertex_count(chart, Some((1usize, 2usize)), 24) == 8) by { reveal_with_fuel(vertex_count, 25) }
    assert(vertex_count(chart, Some((1usize, 3usize)), 24) == 8) by { reveal_with_fuel(vertex_count, 25) }
    assert(vertex_count(chart, Some((2usize, 2usize)), 24) == 8) by { reveal_with_fuel(vertex_count, 25) }
    assert(vertex_count(chart, Some((2usize, 3usize)), 24) == 8) by { reveal_with_fuel(vertex_count, 25) }
}

/// The Birkhoff face of every chart of the finite axis orbit has exactly
/// twelve permutation vertices, and each zero-weight boundary of the chart
/// (a further zero in another row, in one of the pinned columns) cuts it to
/// eight.
pub proof fn lemma_face_vertex_counts(index: int, row: usize, column: usize)
    requires
        0 <= index < ORBIT_LEN,
        row < 4,
        row != orbit_chart_spec(index).0,
        column == orbit_chart_spec(index).1.0 || column == orbit_chart_spec(index).1.1,
    ensures
        face_vertices_upto(all_orders(), orbit_chart_spec(index), None, 24).len() == 12,
        face_vertices_upto(all_orders(), orbit_chart_spec(index), Some((row, column)), 24).len() == 8,
{
    let chart = orbit_chart_spec(index);
    lemma_vertex_count_is_len(chart, None, 24);
    lemma_vertex_count_is_len(chart, Some((row, column)), 24);
    if index == 0 {
        lemma_face_counts_0();
    } else if index == 1 {
        lemma_face_counts_1();
    } else if index == 2 {
        lemma_face_counts_2();
    } else if index == 3 {
        lemma_face_counts_3();
    } else if index == 4 {
        lemma_face_counts_4();
    } else if index == 5 {
        lemma_face_counts_5();
    } else if index == 6 {
        lemma_face_counts_6();
    } else if index == 7 {
        lemma_face_counts_7();
    } else if index == 8 {
        lemma_face_counts_8();
    } else if index == 9 {
        lemma_face_counts_9();
    } else if index == 10 {
        lemma_face_counts_10();
    } else if index == 11 {
        lemma_face_counts_11();
    } else if index == 12 {
        lemma_face_counts_12();
    } else if index == 13 {
        lemma_face_counts_13();
    } else if index == 14 {
        lemma_face_counts_14();
    } else if index == 15 {
        lemma_face_counts_15();
    } else if index == 16 {
        lemma_face_counts_16();
    } else if index == 17 {
        lemma_face_counts_17();
    } else if index == 18 {
        lemma_face_counts_18();
    } else if index == 19 {
        lemma_face_counts_19();
    } else if index == 20 {
        lemma_face_counts_20();
    } else if index == 21 {
        lemma_face_counts_21();
    } else if index == 22 {
        lemma_face_counts_22();
    } else if index == 23 {
        lemma_face_counts_23();
    }
}

} // verus!
