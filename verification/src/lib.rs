//! Combinatorial core of the can-sandwich solver: the finite chart atlases,
//! permutation tables, bit masks, exact dyadic decompositions and the
//! diagnostic counters that the numerical solver drives.

pub mod axis_quartic;
pub mod permutations;
pub mod atlas;
pub mod instrument;
pub mod can_sandwich;
pub mod cascade;
pub mod algebraic;
pub mod arb_roots;
pub mod masks;
pub mod text;
pub mod complete;
pub mod census;
