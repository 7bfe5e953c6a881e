//! Per-stage timing of the cascade dispatcher.
use vstd::prelude::*;
use crate::instrument::{new_profile, Profile};

pub use crate::instrument::{hit, rec, record, start};

verus! {

/// Number of profiled stages.
pub const N: usize = 53;

/// Stage and event slots.
pub const EDGE: usize = 0;
pub const CHART_COEFFS: usize = 1;
pub const ELIM: usize = 2;
pub const ROOTS: usize = 3;
pub const SCORE: usize = 4;
pub const RADICAL_ORIENTED: usize = 5;
pub const RADICAL_FRAME: usize = 6;
pub const INTERIOR_TOTAL: usize = 7;
pub const RADICAL_TOTAL: usize = 8;
pub const PRELUDE: usize = 9;
pub const FACE: usize = 10;
pub const SW_RANK1: usize = 11;
pub const SW_TWO_STEP: usize = 12;
pub const SW_MIRROR: usize = 13;
pub const SW_VERIFY: usize = 14;
pub const SW_PAIR_ROOTS: usize = 15;
pub const SW_WORD_GATE: usize = 16;
pub const GATE_BOX: usize = 17;
pub const GATE_HULL: usize = 18;
pub const GATE_PASS: usize = 19;
pub const TIER_REANCHOR_FAST: usize = 20;
pub const N_TRY_MU: usize = 21;
pub const RJ_BASE: usize = 22;
pub const RJ_SKEL: usize = 23;
pub const RJ_UREAL: usize = 24;
pub const RJ_USUM: usize = 25;
pub const N_ACCEPT: usize = 26;
pub const RJ_V_IMAG: usize = 27;
pub const RJ_V_NEG: usize = 28;
pub const RJ_V_SUM: usize = 29;
pub const SW_BASE: usize = 30;
pub const ARC_PAIR_SKIP: usize = 31;
pub const ARC_CAND_SKIP: usize = 32;
pub const URAY_SKIP: usize = 33;
pub const SKEL_SKIP: usize = 34;
pub const BASE_FAIL_FORCED: usize = 35;
pub const BASE_FAIL_SKEL: usize = 36;
pub const BASE_FAIL_PAIR: usize = 37;
pub const DEV_LT_1EM6: usize = 38;
pub const DEV_MID: usize = 39;
pub const DEV_GT_1EM2: usize = 40;
pub const PAIR_GATE_SOME: usize = 41;
pub const PAIR_GATE_NONE: usize = 42;
pub const INH_SKIP: usize = 43;
pub const RED_SKIP: usize = 44;
pub const SW_HEADER: usize = 45;
pub const KLEIN_TOTAL: usize = 46;
pub const SEG_PREPARE: usize = 47;
pub const SEG_EDGEGATE: usize = 48;
pub const SEG_VERTEX: usize = 49;
pub const CHART_TIER: usize = 50;
pub const CHART_PHASEA: usize = 51;
pub const CERT_FAST: usize = 52;

/// A stage profile for the cascade dispatcher, all totals zero.
pub fn new(enabled: bool) -> (profile: Profile)
    ensures
        profile.wf(),
        profile.enabled == enabled,
        profile.stages() == N,
        forall|i: int| 0 <= i < N ==> profile.ns@[i] == 0 && profile.ct@[i] == 0,
{
    new_profile(enabled, N)
}

} // verus!
