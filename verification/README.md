# can_sandwich (verified core)

The exact, combinatorial core of the can-sandwich solver, written in Verus and
proved against its contracts:

- `permutations`: the 24 Heap orders, signed permutation frames in SO(4),
  packed order codes.
- `atlas`: the ordered spanning-tree plane words of the interior rung, cube
  corner tables, chart signatures and the exact image-class quotient.
- `census`: a chart-by-chart certificate that fixes the sizes of that
  quotient (216 classes, the first 102 of them met by the head words): each
  chart is matched to the first chart of its class by an explicit cube
  automorphism, and the classes are told apart by a weight that every
  automorphism keeps.
- `axis_quartic`: the finite orbit of labelled axis charts and their
  Birkhoff faces.
- `algebraic`: the rung labels, the edge/face support bookkeeping and the
  Klein-coset routing.
- `complete`: reducing-subspace labels of the rank-recursive solver and its
  counters.
- `can_sandwich`, `cascade`: the dispatchers' rung labels, interior scan
  schedule and diagnostic state.
- `arb_roots`: exact dyadic values of binary64 coefficients and normalized
  rational polynomials.
- `instrument`, `masks`, `text`: timers and counters, bit masks, decimal text.

`app/` holds the floating-point rungs that drive these functions
(nalgebra matrices); it is ordinary Rust and is not verified. `tests/` runs
the library on concrete values.
