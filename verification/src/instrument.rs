//! Aggregate stage timers and event counters for corpus diagnostics.
//!
//! A `Profile` holds, per stage, the accumulated nanoseconds and the number
//! of recorded calls. Counters wrap on overflow, as relaxed atomic adds do.
use vstd::prelude::*;
use std::time::{Duration, Instant};

verus! {

#[verifier::external_type_specification]
#[verifier::external_body]
pub struct ExInstant(Instant);

/// `std::time::Instant::now`: reads the monotonic clock. Nothing is stated of
/// the returned instant (it depends on the time of the call).
#[verifier::external_body]
fn instant_now() -> Instant {
    Instant::now()
}

/// `std::time::Instant::elapsed`: the time since `t` on the monotonic
/// clock. Nothing is stated of the returned duration (it depends on the time
/// of the call).
#[verifier::external_body]
fn elapsed(t: &Instant) -> Duration {
    t.elapsed()
}

/// `std::time::Duration::as_nanos`: the whole nanoseconds in `d`. A
/// duration is opaque here, so nothing is stated of the result.
#[verifier::external_body]
fn duration_nanos(d: &Duration) -> u128 {
    d.as_nanos()
}

/// Per-stage timing totals and call counts. Timers start and events count
/// only when enabled; a started timer records its stage when it ends.
pub struct Profile {
    pub enabled: bool,
    pub ns: Vec<u64>,
    pub ct: Vec<u64>,
}

impl Profile {
    /// One timing total and one call count per stage.
    pub open spec fn wf(&self) -> bool {
        self.ns@.len() == self.ct@.len()
    }

    pub open spec fn stages(&self) -> nat {
        self.ct@.len()
    }
}

/// A profile with `n` stages, all totals and counts zero.
pub fn new_profile(enabled: bool, n: usize) -> (profile: Profile)
    ensures
        profile.wf(),
        profile.enabled == enabled,
        profile.stages() == n,
        forall|i: int| 0 <= i < n ==> profile.ns@[i] == 0 && profile.ct@[i] == 0,
{
    let mut ns: Vec<u64> = Vec::new();
    let mut ct: Vec<u64> = Vec::new();
    let mut i: usize = 0;
    while i < n
        invariant
            i <= n,
            ns@.len() == i,
            ct@.len() == i,
            forall|j: int| 0 <= j < i ==> ns@[j] == 0 && ct@[j] == 0,
        decreases n - i,
    {
        ns.push(0);
        ct.push(0);
        i = i + 1;
    }
    Profile { enabled, ns, ct }
}

/// Starts a stage timer: the current instant when profiling is enabled,
/// `None` otherwise.
pub fn start(profile: &Profile) -> (t0: Option<Instant>)
    ensures
        t0.is_some() == profile.enabled,
{
    if profile.enabled {
        Some(instant_now())
    } else {
        None
    }
}

/// Adds `elapsed` nanoseconds and one call to stage `i`; every other stage
/// is unchanged.
pub fn record(profile: &mut Profile, i: usize, elapsed: u64)
    requires
        old(profile).wf(),
        i < old(profile).stages(),
    ensures
        final(profile).wf(),
        final(profile).enabled == old(profile).enabled,
        final(profile).ns@ == old(profile).ns@.update(i as int, old(profile).ns@[i as int].wrapping_add(elapsed)),
        final(profile).ct@ == old(profile).ct@.update(i as int, old(profile).ct@[i as int].wrapping_add(1)),
{
    let total = profile.ns[i].wrapping_add(elapsed);
    profile.ns.set(i, total);
    let calls = profile.ct[i].wrapping_add(1);
    profile.ct.set(i, calls);
}

/// Ends the stage timer `t0` for stage `i`: when it was started, adds the
/// nanoseconds since then and one call to the stage. A timer that was not
/// started (profiling off) records nothing, whatever the stage index.
pub fn rec(profile: &mut Profile, i: usize, t0: Option<Instant>)
    requires
        old(profile).wf(),
        t0.is_some() ==> i < old(profile).stages(),
    ensures
        final(profile).wf(),
        final(profile).enabled == old(profile).enabled,
        t0.is_none() ==> *final(profile) == *old(profile),
        t0.is_some() ==> final(profile).ct@ == old(profile).ct@.update(i as int, old(profile).ct@[i as int].wrapping_add(1)),
        t0.is_some() ==> exists|elapsed: u64| final(profile).ns@ == old(profile).ns@.update(i as int, old(profile).ns@[i as int].wrapping_add(elapsed)),
{
    if let Some(t) = t0 {
        let nanos = duration_nanos(&elapsed(&t)) as u64;
        record(profile, i, nanos);
    }
}

/// Counts one event (no timing) in stage `i` when profiling is enabled;
/// otherwise nothing changes, whatever the stage index.
pub fn hit(profile: &mut Profile, i: usize)
    requires
        old(profile).wf(),
        old(profile).enabled ==> i < old(profile).stages(),
    ensures
        final(profile).wf(),
        final(profile).enabled == old(profile).enabled,
        final(profile).ns@ == old(profile).ns@,
        final(profile).ct@ == if old(profile).enabled {
            old(profile).ct@.update(i as int, old(profile).ct@[i as int].wrapping_add(1))
        } else {
            old(profile).ct@
        },
{
    if profile.enabled {
        let calls = profile.ct[i].wrapping_add(1);
        profile.ct.set(i, calls);
    }
}

/// Event counters that count only when enabled (the obstruction funnel).
pub struct Counters {
    pub enabled: bool,
    pub counts: Vec<u64>,
}

/// A counter bank of `n` zero counters.
pub fn new_counters(enabled: bool, n: usize) -> (counters: Counters)
    ensures
        counters.enabled == enabled,
        counters.counts@ == Seq::new(n as nat, |i: int| 0u64),
{
    let mut counts: Vec<u64> = Vec::new();
    let mut i: usize = 0;
    while i < n
        invariant
            i <= n,
            counts@ == Seq::new(i as nat, |j: int| 0u64),
        decreases n - i,
    {
        counts.push(0);
        i = i + 1;
    }
    Counters { enabled, counts }
}

/// Counts one event of kind `i` when the counters are enabled; otherwise
/// nothing changes, whatever the index.
pub fn bump(counters: &mut Counters, i: usize)
    requires
        old(counters).enabled ==> i < old(counters).counts@.len(),
    ensures
        final(counters).enabled == old(counters).enabled,
        final(counters).counts@ == if old(counters).enabled {
            old(counters).counts@.update(i as int, old(counters).counts@[i as int].wrapping_add(1))
        } else {
            old(counters).counts@
        },
{
    if counters.enabled {
        let next = counters.counts[i].wrapping_add(1);
        counters.counts.set(i, next);
    }
}

/// A copy of every counter.
pub fn snapshot(counters: &Counters) -> (values: Vec<u64>)
    ensures
        values@ == counters.counts@,
{
    let mut values: Vec<u64> = Vec::new();
    let mut i: usize = 0;
    while i < counters.counts.len()
        invariant
            i <= counters.counts@.len(),
            values@ == counters.counts@.take(i as int),
        decreases counters.counts@.len() - i,
    {
        values.push(counters.counts[i]);
        i = i + 1;
        assert(values@ =~= counters.counts@.take(i as int));
    }
    assert(values@ =~= counters.counts@);
    values
}

} // verus!
