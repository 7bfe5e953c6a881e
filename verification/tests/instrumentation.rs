use can_sandwich::can_sandwich::{funnel, prof};
use can_sandwich::cascade;
use can_sandwich::instrument::{hit, new_counters, new_profile, rec, record, start};

#[test]
fn disabled_profile_records_nothing() {
    let mut profile = prof::new(false);
    assert_eq!(profile.ns.len(), prof::N);
    let t0 = start(&profile);
    assert!(t0.is_none());
    rec(&mut profile, 3, t0);
    hit(&mut profile, 3);
    assert!(profile.ns.iter().all(|&x| x == 0));
    assert!(profile.ct.iter().all(|&x| x == 0));
}

#[test]
fn enabled_profile_counts_calls_and_hits() {
    let mut profile = cascade::prof::new(true);
    assert_eq!(profile.ct.len(), cascade::prof::N);
    let t0 = start(&profile);
    assert!(t0.is_some());
    rec(&mut profile, cascade::prof::FACE, t0);
    hit(&mut profile, cascade::prof::CERT_FAST);
    hit(&mut profile, cascade::prof::CERT_FAST);
    assert_eq!(profile.ct[cascade::prof::FACE], 1);
    assert_eq!(profile.ct[cascade::prof::CERT_FAST], 2);
    assert_eq!(profile.ns[cascade::prof::CERT_FAST], 0);
    assert_eq!(profile.ct.iter().sum::<u64>(), 3);
}

#[test]
fn record_adds_time_and_wraps() {
    let mut profile = new_profile(true, 2);
    record(&mut profile, 1, 40);
    record(&mut profile, 1, 2);
    assert_eq!(profile.ns, vec![0, 42]);
    assert_eq!(profile.ct, vec![0, 2]);
    record(&mut profile, 0, u64::MAX);
    record(&mut profile, 0, 3);
    assert_eq!(profile.ns[0], 2);
}

#[test]
fn funnel_counts_only_when_enabled() {
    let mut counters = funnel::new(true);
    assert_eq!(funnel::snapshot(&counters).len(), funnel::N);
    funnel::bump(&mut counters, funnel::ATTEMPTS);
    funnel::bump(&mut counters, funnel::ATTEMPTS);
    funnel::bump(&mut counters, funnel::SKELWIN);
    let snap = funnel::snapshot(&counters);
    assert_eq!(snap[funnel::ATTEMPTS], 2);
    assert_eq!(snap[funnel::SKELWIN], 1);
    assert_eq!(snap.iter().sum::<u64>(), 3);
    let mut off = new_counters(false, 4);
    funnel::bump(&mut off, 2);
    assert_eq!(funnel::snapshot(&off), vec![0, 0, 0, 0]);
}

#[test]
fn idle_recording_accepts_any_index() {
    let mut profile = prof::new(false);
    rec(&mut profile, 1000, None);
    hit(&mut profile, 1000);
    assert!(profile.ct.iter().all(|&x| x == 0));
    let mut counters = new_counters(false, 2);
    funnel::bump(&mut counters, 99);
    assert_eq!(counters.counts, vec![0, 0]);
}
