//! The cascade dispatcher: which bounded construction certified a frame.
use vstd::prelude::*;

pub mod prof;

pub use crate::atlas::init_tables;

verus! {

/// Which bounded construction produced the certified frame.
#[derive(Debug, Clone, Copy, PartialEq, Eq, Structural, PartialOrd, Ord)]
pub enum Rung {
    /// A frame transported from an adjacent exact stratum and certified
    /// directly against the original problem.
    Vertex,
    Edge,
    Face,
    /// Routed `1 + 3` peel: rank-drop formulas, nine quadratic zero-entry
    /// walls, and the dense residual selector.
    OnePlusThree,
    /// Exact rank-one spectral-measure selector when either factor is `3+1`.
    RankOne31,
    /// Certified candidate from the near-`3+1` rank-one limit; the forward
    /// certificate is mandatory there.
    NearRankOne31,
    Interior,
    /// Klein-circulant one-sided chart.
    Klein,
    /// One factor has multiplicity `2 + 2`.
    Pair22,
    /// Radical strata, tried in all four orientations.
    Radical,
    /// The row-in-plane chart atlas: one row of the frame in a coordinate
    /// 2-plane. Closed-form frames only.
    Chart,
    Unsolved,
}

/// How many ranked orders the edge and interior rungs try (all 24).
pub const CAND_K: usize = 24;

} // verus!
