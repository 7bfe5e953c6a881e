//! Obstruction taxonomy for the interior chart funnel: an inability to
//! compute a root is counted as a numerical failure, never as a decline.
use vstd::prelude::*;
use crate::instrument::{new_counters, Counters};

pub use crate::instrument::{bump, snapshot};

verus! {

/// Number of funnel counters.
pub const N: usize = 52;
pub const ATTEMPTS: usize = 0;
pub const HULL: usize = 1;
pub const REGION_EMPTY: usize = 2;
pub const NO_ROOT_IN_S: usize = 3;
pub const FINAL_FAIL: usize = 4;
pub const NUMERICAL: usize = 5;
pub const DEGENERATE: usize = 6;
/// Which of the multiplicity recursion's three orientations owns a row.
pub const RAD: usize = 7;
/// Semialgebraic router probe: index `13 + 3 * active_mask + winner`.
pub const RADMW: usize = 13;
/// Which position in the pair scan wins.
pub const PAIRIDX: usize = 37;
/// A-priori skeleton parity target versus the calibrated one.
pub const APRIORI: usize = 45;
pub const EVENCHAR: usize = 47;
/// Would the a-priori parity gate reject a winning subset?
pub const SKELWIN: usize = 50;

/// A funnel with every counter zero.
pub fn new(enabled: bool) -> (funnel: Counters)
    ensures
        funnel.enabled == enabled,
        funnel.counts@ == Seq::new(N as nat, |i: int| 0u64),
{
    new_counters(enabled, N)
}

} // verus!
