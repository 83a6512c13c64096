use dcapal_backend::clock::{now, timestamp_from_parts, Timestamp, Ttl};

const DAY: i64 = 19_000 * 86_400;

#[test]
fn calendar_fields_of_an_instant() {
    let t = Timestamp::new(DAY + 10 * 3600 + 27 * 60 + 45, 123);
    assert_eq!(t.hour_number(), 10);
    assert_eq!(t.minute_number(), 27);
    assert_eq!(t.bucket_number(), 25);
    assert_eq!(t.day_number(), Timestamp::new(DAY, 0).day_number());
    assert_eq!(t.day_number(), Timestamp::new(DAY + 86_399, 0).day_number());
    assert_ne!(t.day_number(), Timestamp::new(DAY + 86_400, 0).day_number());
}

#[test]
fn calendar_fields_before_the_epoch() {
    // 1969-12-31, one hour before midnight.
    let t = Timestamp::new(-3600, 0);
    assert_eq!(t.hour_number(), 23);
    assert_eq!(t.minute_number(), 0);
    assert_eq!(t.day_number() + 1, Timestamp::new(0, 0).day_number());
}

#[test]
fn from_parts_carries_an_oversized_subsecond() {
    // A leap-second reading carries its extra second into the seconds.
    let t = timestamp_from_parts(DAY, 1_500_000_000);
    assert_eq!(t, Timestamp::new(DAY + 1, 500_000_000));
    let u = timestamp_from_parts(DAY, 999_999_999);
    assert_eq!(u, Timestamp::new(DAY, 999_999_999));
}

#[test]
fn ttl_seconds_round_down() {
    let ttl = Ttl { secs: 42, nanos: 999_999_999 };
    assert_eq!(ttl.as_secs(), 42);
    assert_eq!(Ttl::zero().as_secs(), 0);
}

#[test]
fn wall_clock_is_well_formed() {
    let t = now();
    assert!(t.nanos < 1_000_000_000);
    // The wall clock reads a real date: after 2020, before year 3000.
    assert!(t.secs > 1_577_836_800);
    assert!(t.secs < 32_503_680_000);
}
