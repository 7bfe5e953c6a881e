//! Per-stage timing of the production dispatcher.
use vstd::prelude::*;
use crate::instrument::{new_profile, Profile};

pub use crate::instrument::{hit, rec, record, start};

verus! {

/// Number of profiled stages.
pub const N: usize = 66;

/// A stage profile for the production dispatcher, all totals zero.
pub fn new(enabled: bool) -> (profile: Profile)
    ensures
        profile.wf(),
        profile.enabled == enabled,
        profile.stages() == N,
        forall|i: int| 0 <= i < N ==> profile.ns@[i] == 0 && profile.ct@[i] == 0,
{
    new_profile(enabled, N)
}

} // verus!
