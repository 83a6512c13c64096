use dcapal_backend::clock::Timestamp;
use dcapal_backend::entity::Price;
use dcapal_backend::freshness::Expiring;

// A fixed calendar day, as seconds since the Unix epoch.
const DAY: i64 = 19_000 * 86_400;

fn ts(secs: i64, nanos: u32) -> Timestamp {
    Timestamp::new(secs, nanos)
}

#[test]
fn fresh_within_same_bucket() {
    // Price at 10:07:00, observed at 10:09:59.999999999 — same 5-minute
    // bucket of the same hour and day: not outdated.
    let t1 = ts(DAY + 10 * 3600 + 7 * 60, 0);
    let t2 = ts(DAY + 10 * 3600 + 9 * 60 + 59, 999_999_999);
    let p = Price::new(0, t1);
    assert!(!p.is_outdated_at(&t2));
}

#[test]
fn outdated_in_later_bucket_same_hour() {
    // Price at 10:07, observed at 10:10 — strictly later 5-minute bucket of
    // the same hour: outdated.
    let t1 = ts(DAY + 10 * 3600 + 7 * 60, 0);
    let t2 = ts(DAY + 10 * 3600 + 10 * 60, 0);
    let p = Price::new(0, t1);
    assert!(p.is_outdated_at(&t2));
}

#[test]
fn outdated_in_different_hour() {
    let t1 = ts(DAY + 10 * 3600 + 7 * 60, 0);
    let t2 = ts(DAY + 11 * 3600, 0);
    let p = Price::new(0, t1);
    assert!(p.is_outdated_at(&t2));
}

#[test]
fn outdated_on_different_day() {
    // Same hour of day and same bucket, but the next calendar day.
    let t1 = ts(DAY + 10 * 3600 + 7 * 60, 0);
    let t2 = ts(DAY + 86_400 + 10 * 3600 + 7 * 60, 0);
    let p = Price::new(0, t1);
    assert!(p.is_outdated_at(&t2));
}

#[test]
fn outdated_in_earlier_hour_of_day() {
    // The staleness rule compares the hour of day for inequality, so an
    // observation in an *earlier* hour of the same day is also stale.
    let t1 = ts(DAY + 10 * 3600 + 7 * 60, 0);
    let t2 = ts(DAY + 9 * 3600 + 7 * 60, 0);
    let p = Price::new(0, t1);
    assert!(p.is_outdated_at(&t2));
}

#[test]
fn ttl_three_minutes_in_is_two_minutes() {
    // Observed 3 minutes after the tick: 2 of the 5 minutes remain.
    let t1 = ts(DAY + 10 * 3600, 0);
    let now = ts(DAY + 10 * 3600 + 180, 0);
    let p = Price::new(0, t1);
    let ttl = p.time_to_live_at(&now);
    assert_eq!(ttl.as_secs(), 120);
    assert_eq!(ttl.nanos, 0);
}

#[test]
fn ttl_zero_exactly_from_five_minutes_on() {
    let t1 = ts(DAY, 0);
    let p = Price::new(0, t1);
    // One nanosecond before the window closes: still positive.
    let just_before = ts(DAY + 299, 999_999_999);
    let ttl = p.time_to_live_at(&just_before);
    assert_eq!(ttl.as_secs(), 0);
    assert_eq!(ttl.nanos, 1);
    // At the boundary and after it: exactly zero.
    let at_end = ts(DAY + 300, 0);
    assert_eq!(p.time_to_live_at(&at_end).as_secs(), 0);
    assert_eq!(p.time_to_live_at(&at_end).nanos, 0);
    let later = ts(DAY + 301, 0);
    assert_eq!(p.time_to_live_at(&later).as_secs(), 0);
    assert_eq!(p.time_to_live_at(&later).nanos, 0);
}

#[test]
fn ttl_counts_down_through_sub_seconds() {
    let t1 = ts(DAY, 500_000_000);
    let now = ts(DAY + 100, 700_000_000);
    let p = Price::new(0, t1);
    // 300s - 100.2s = 199.8s remaining.
    let ttl = p.time_to_live_at(&now);
    assert_eq!(ttl.as_secs(), 199);
    assert_eq!(ttl.nanos, 800_000_000);
}

#[test]
fn wall_clock_queries_run() {
    // The wall-clock variants only promise a well-formed answer; exercise
    // them against a price stamped now-ish.
    let p = Price::new(0, dcapal_backend::clock::now());
    let _ = p.is_outdated();
    let ttl = p.time_to_live();
    assert!(ttl.as_secs() <= 300);
}
