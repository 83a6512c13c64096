//! Instants and durations on the UTC time line.
//!
//! A [`Timestamp`] is an instant written as whole seconds relative to the
//! Unix epoch plus a sub-second nanosecond part; UTC has no offset jumps, so
//! calendar fields (day, hour of day, minute of hour) are plain integer
//! arithmetic on the seconds. A [`Ttl`] is a non-negative remaining duration.
//!
//! The only call to the outside clock lives here as well: [`now`] reads the
//! wall clock through `chrono` and normalises the raw parts into a
//! well-formed [`Timestamp`].

use vstd::prelude::*;

verus! {

use vstd::arithmetic::div_mod::{
    lemma_div_denominator,
    lemma_fundamental_div_mod,
    lemma_fundamental_div_mod_converse,
    lemma_mod_bound,
    lemma_mod_multiples_vanish,
};

/// Earliest representable instant, in seconds relative to the Unix epoch.
pub const TS_MIN_SECS: i64 = -9_100_000_000_000;
/// Latest representable instant, in seconds relative to the Unix epoch.
pub const TS_MAX_SECS: i64 = 9_100_000_000_000;
/// Offset that shifts any representable instant to a non-negative number of
/// seconds. A multiple of 86_400, so shifting preserves day boundaries,
/// hours of day and minutes of hour.
pub const TS_BIAS_SECS: i64 = 9_100_000_080_000;
pub const NANOS_PER_SEC: u32 = 1_000_000_000;
pub const SECS_PER_DAY: u64 = 86_400;
pub const SECS_PER_HOUR: u64 = 3_600;
pub const SECS_PER_MINUTE: u64 = 60;

/// An instant on the UTC time line: `secs` seconds after the Unix epoch
/// (negative for instants before it) plus `nanos` nanoseconds.
#[derive(Debug, Clone, Copy, PartialEq, Eq, Structural)]
pub struct Timestamp {
    pub secs: i64,
    pub nanos: u32,
}

impl Timestamp {
    /// A representable instant: seconds within the model's range and a
    /// normalised sub-second part.
    pub open spec fn wf(self) -> bool {
        &&& TS_MIN_SECS <= self.secs <= TS_MAX_SECS
        &&& self.nanos < NANOS_PER_SEC
    }

    /// The instant as a total number of nanoseconds since the Unix epoch.
    pub open spec fn as_nanos(self) -> int {
        self.secs * (NANOS_PER_SEC as int) + self.nanos
    }

    /// Seconds shifted to a non-negative range; day/hour/minute arithmetic
    /// happens on this value.
    pub open spec fn biased_secs(self) -> int {
        self.secs + TS_BIAS_SECS
    }

    /// Index of the calendar day this instant falls on. Counted from an
    /// internal epoch far in the past: only equality, order and differences
    /// of day indices are meaningful.
    pub open spec fn day_index(self) -> int {
        self.biased_secs() / (SECS_PER_DAY as int)
    }

    /// Seconds elapsed since the start of the instant's calendar day.
    pub open spec fn sec_of_day(self) -> int {
        self.biased_secs() % (SECS_PER_DAY as int)
    }

    /// Hour of day, `0 ..= 23`.
    pub open spec fn hour_of_day(self) -> int {
        self.sec_of_day() / (SECS_PER_HOUR as int)
    }

    /// Minute of hour, `0 ..= 59`.
    pub open spec fn minute_of_hour(self) -> int {
        (self.sec_of_day() % (SECS_PER_HOUR as int)) / (SECS_PER_MINUTE as int)
    }

    /// The 5-minute bucket of the hour this instant falls in: the minute of
    /// hour floored to a multiple of 5.
    pub open spec fn bucket_of_hour(self) -> int {
        (self.minute_of_hour() / 5) * 5
    }

    /// Builds the instant `secs` seconds and `nanos` nanoseconds after the
    /// Unix epoch.
    pub fn new(secs: i64, nanos: u32) -> (r: Timestamp)
        requires
            TS_MIN_SECS <= secs <= TS_MAX_SECS,
            nanos < NANOS_PER_SEC,
        ensures
            r == (Timestamp { secs, nanos }),
            r.wf(),
    {
        Timestamp { secs, nanos }
    }

    /// The biased seconds as a machine integer.
    pub(crate) fn biased(&self) -> (r: u64)
        requires
            self.wf(),
        ensures
            r as int == self.biased_secs(),
    {
        (self.secs + TS_BIAS_SECS) as u64
    }

    /// The day index, shifted by the bias so that it is non-negative; equal
    /// day numbers mean the same calendar day.
    pub fn day_number(&self) -> (r: u64)
        requires
            self.wf(),
        ensures
            r as int == self.day_index(),
    {
        self.biased() / SECS_PER_DAY
    }

    /// Hour of day, `0 ..= 23`.
    pub fn hour_number(&self) -> (r: u64)
        requires
            self.wf(),
        ensures
            r as int == self.hour_of_day(),
    {
        (self.biased() % SECS_PER_DAY) / SECS_PER_HOUR
    }

    /// Minute of hour, `0 ..= 59`.
    pub fn minute_number(&self) -> (r: u64)
        requires
            self.wf(),
        ensures
            r as int == self.minute_of_hour(),
    {
        ((self.biased() % SECS_PER_DAY) % SECS_PER_HOUR) / SECS_PER_MINUTE
    }

    /// The 5-minute bucket of the hour: minute of hour floored to a
    /// multiple of 5.
    pub fn bucket_number(&self) -> (r: u64)
        requires
            self.wf(),
        ensures
            r as int == self.bucket_of_hour(),
    {
        (self.minute_number() / 5) * 5
    }
}

/// A non-negative remaining duration: `secs` whole seconds plus `nanos`
/// nanoseconds.
#[derive(Debug, Clone, Copy, PartialEq, Eq, Structural)]
pub struct Ttl {
    pub secs: u64,
    pub nanos: u32,
}

impl Ttl {
    /// A normalised duration: the sub-second part is less than one second.
    pub open spec fn wf(self) -> bool {
        self.nanos < NANOS_PER_SEC
    }

    /// The duration as a total number of nanoseconds.
    pub open spec fn as_nanos(self) -> int {
        self.secs * (NANOS_PER_SEC as int) + self.nanos
    }

    /// The zero duration.
    pub fn zero() -> (r: Ttl)
        ensures
            r.wf(),
            r.as_nanos() == 0,
    {
        Ttl { secs: 0, nanos: 0 }
    }

    /// Whole seconds of the duration, rounded down.
    pub fn as_secs(&self) -> (r: u64)
        requires
            self.wf(),
        ensures
            r == self.secs,
            r as int == self.as_nanos() / (NANOS_PER_SEC as int),
    {
        proof {
            vstd::arithmetic::div_mod::lemma_fundamental_div_mod_converse(
                self.as_nanos(),
                NANOS_PER_SEC as int,
                self.secs as int,
                self.nanos as int,
            );
        }
        self.secs
    }
}

/// Raw wall-clock reading.
///
/// Relies on `chrono::Utc::now` together with `DateTime::timestamp` and
/// `DateTime::timestamp_subsec_nanos`: any `chrono` UTC instant has its
/// seconds within about +/- 8.4e12 of the Unix epoch, and the sub-second
/// part is below two seconds' worth of nanoseconds (it exceeds one second
/// only while a leap second is smeared).
#[verifier::external_body]
fn chrono_now_parts() -> (r: (i64, u32))
    ensures
        -8_400_000_000_000 <= r.0 <= 8_400_000_000_000,
        r.1 < 2_000_000_000,
{
    let now = chrono::Utc::now();
    (now.timestamp(), now.timestamp_subsec_nanos())
}

/// Normalises a raw `(seconds, sub-second nanoseconds)` clock reading: a
/// sub-second part of a second or more is carried into the seconds.
pub fn timestamp_from_parts(secs: i64, nanos: u32) -> (r: Timestamp)
    requires
        -8_400_000_000_000 <= secs <= 8_400_000_000_000,
        nanos < 2_000_000_000,
    ensures
        r.wf(),
        r.as_nanos() == secs * (NANOS_PER_SEC as int) + nanos,
{
    if nanos >= NANOS_PER_SEC {
        Timestamp { secs: secs + 1, nanos: nanos - NANOS_PER_SEC }
    } else {
        Timestamp { secs, nanos }
    }
}

/// Flooring an instant's seconds to a multiple of 300 (five minutes) keeps
/// the calendar day and the hour of day, sets the minute of hour to the
/// 5-minute bucket of the original instant, and zeroes the second of minute.
pub proof fn lemma_bucket_floor(t: Timestamp, u: Timestamp)
    requires
        t.wf(),
        u.nanos == 0,
        u.biased_secs() == (t.biased_secs() / 300) * 300,
    ensures
        u.day_index() == t.day_index(),
        u.hour_of_day() == t.hour_of_day(),
        u.minute_of_hour() == t.bucket_of_hour(),
        u.sec_of_day() % 60 == 0,
{
    let b = t.biased_secs();
    lemma_fundamental_div_mod(b, 300);
    lemma_mod_bound(b, 300);
    let f = u.biased_secs();
    assert(f == b - b % 300);

    // Day and second-of-day of the floored instant.
    lemma_fundamental_div_mod(b, 86400);
    lemma_mod_bound(b, 86400);
    let d = b / 86400;
    let s = b % 86400;
    assert(b == 300 * (288 * d) + s);
    lemma_mod_multiples_vanish(288 * d, s, 300);
    assert(b % 300 == s % 300);
    lemma_mod_bound(s, 300);
    let s1 = s - s % 300;
    assert(f == 86400 * d + s1);
    lemma_fundamental_div_mod_converse(f, 86400, d, s1);
    assert(u.day_index() == d);
    assert(u.sec_of_day() == s1);

    // Hour of day.
    lemma_fundamental_div_mod(s, 3600);
    lemma_mod_bound(s, 3600);
    let h = s / 3600;
    let v = s % 3600;
    assert(s == 300 * (12 * h) + v);
    lemma_mod_multiples_vanish(12 * h, v, 300);
    assert(s % 300 == v % 300);
    lemma_mod_bound(v, 300);
    let v1 = v - v % 300;
    assert(s1 == 3600 * h + v1);
    lemma_fundamental_div_mod_converse(s1, 3600, h, v1);
    assert(u.hour_of_day() == h);
    assert(u.sec_of_day() % 3600 == v1);

    // Minute of hour: the floored minute is the bucket of the original.
    lemma_fundamental_div_mod(v, 300);
    lemma_mod_bound(v, 300);
    let k = v / 300;
    assert(v1 == 300 * k);
    assert(v1 == (5 * k) * 60 + 0);
    lemma_fundamental_div_mod_converse(v1, 60, 5 * k, 0);
    assert(u.minute_of_hour() == 5 * k);
    lemma_div_denominator(v, 60, 5);
    assert(t.minute_of_hour() / 5 == k);
    assert(t.bucket_of_hour() == 5 * k);

    // Second of minute is zero.
    assert(s1 == (60 * h + 5 * k) * 60 + 0);
    lemma_fundamental_div_mod_converse(s1, 60, 60 * h + 5 * k, 0);
}

/// The current instant, read from the wall clock.
pub fn now() -> (r: Timestamp)
    ensures
        r.wf(),
{
    let (secs, nanos) = chrono_now_parts();
    timestamp_from_parts(secs, nanos)
}

} // verus!
