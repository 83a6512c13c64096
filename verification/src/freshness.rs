//! The freshness capability: when is a cached price stale, and how long does
//! it stay valid.
//!
//! A price stamped `ts` is **outdated** as of `now` when `now` falls on a
//! different calendar day, in a different hour of day, or in a later
//! 5-minute bucket of the hour than `ts`. Its **time to live** is the time
//! from `now` until `ts` plus the validity window, clamped at zero.
//!
//! Every priced entity implements [`Expiring`], so HTTP cache headers are
//! derived from a single code path.

use vstd::prelude::*;

use crate::clock::{self, Timestamp, Ttl};

verus! {

/// Number of minutes a price stays valid.
pub const VALIDITY_MINS: u32 = 5;
/// The validity window in seconds: `VALIDITY_MINS` minutes.
pub const VALIDITY_SECS: i64 = 300;
/// The validity window in nanoseconds: `VALIDITY_MINS` minutes.
pub const VALIDITY_NANOS: i64 = 300_000_000_000;

/// A price stamped `ts` is outdated as of `now`: different calendar day,
/// different hour of day, or `now` in a later 5-minute bucket of the hour.
pub open spec fn spec_price_outdated(ts: Timestamp, now: Timestamp) -> bool {
    ||| now.day_index() != ts.day_index()
    ||| now.hour_of_day() != ts.hour_of_day()
    ||| now.bucket_of_hour() > ts.bucket_of_hour()
}

/// Remaining validity, in nanoseconds, of a price stamped `ts` as seen from
/// `now`: the distance to `ts + VALIDITY_MINS`, clamped at zero.
pub open spec fn spec_ttl_nanos(ts: Timestamp, now: Timestamp) -> int {
    let end = ts.as_nanos() + VALIDITY_NANOS;
    if now.as_nanos() >= end {
        0
    } else {
        end - now.as_nanos()
    }
}

/// The freshness capability: any priced entity answers "is this stale?" and
/// "how long until it becomes stale?". Pure functions of the entity and of
/// the observation instant.
pub trait Expiring {
    /// Well-formedness the freshness queries rely on.
    spec fn wf(&self) -> bool;

    /// Whether the entity's price is stale as of `now`.
    spec fn spec_is_outdated(&self, now: Timestamp) -> bool;

    /// Remaining validity in nanoseconds as of `now`.
    spec fn spec_ttl(&self, now: Timestamp) -> int;

    /// Staleness as of the injected instant `now`.
    fn is_outdated_at(&self, now: &Timestamp) -> (r: bool)
        requires
            self.wf(),
            now.wf(),
        ensures
            r == self.spec_is_outdated(*now),
    ;

    /// Remaining validity as of the injected instant `now`.
    fn time_to_live_at(&self, now: &Timestamp) -> (r: Ttl)
        requires
            self.wf(),
            now.wf(),
        ensures
            r.wf(),
            r.as_nanos() == self.spec_ttl(*now),
    ;

    /// Staleness as of the wall clock.
    fn is_outdated(&self) -> (r: bool)
        requires
            self.wf(),
        ensures
            exists|now: Timestamp| now.wf() && r == self.spec_is_outdated(now),
    {
        let n = clock::now();
        let r = self.is_outdated_at(&n);
        proof {
            assert(n.wf() && r == self.spec_is_outdated(n));
        }
        r
    }

    /// Remaining validity as of the wall clock.
    fn time_to_live(&self) -> (r: Ttl)
        requires
            self.wf(),
        ensures
            r.wf(),
            exists|now: Timestamp| now.wf() && r.as_nanos() == self.spec_ttl(now),
    {
        let n = clock::now();
        let r = self.time_to_live_at(&n);
        proof {
            assert(n.wf() && r.as_nanos() == self.spec_ttl(n));
        }
        r
    }
}

/// Law: a price is never outdated for an observer within the same 5-minute
/// bucket of the same hour of the same calendar day as its timestamp.
pub proof fn lemma_fresh_within_same_bucket(ts: Timestamp, now: Timestamp)
    requires
        ts.as_nanos() < now.as_nanos(),
        now.day_index() == ts.day_index(),
        now.hour_of_day() == ts.hour_of_day(),
        now.bucket_of_hour() == ts.bucket_of_hour(),
    ensures
        !spec_price_outdated(ts, now),
{
}

/// Law: a price is outdated for any observer in a strictly later 5-minute
/// bucket of the same hour of the same calendar day.
pub proof fn lemma_outdated_in_later_bucket(ts: Timestamp, now: Timestamp)
    requires
        now.day_index() == ts.day_index(),
        now.hour_of_day() == ts.hour_of_day(),
        now.bucket_of_hour() > ts.bucket_of_hour(),
    ensures
        spec_price_outdated(ts, now),
{
}

/// Law: remaining validity is never negative, and it is zero exactly when
/// `now` is at or past the timestamp plus the validity window.
pub proof fn lemma_ttl_clamped(ts: Timestamp, now: Timestamp)
    ensures
        spec_ttl_nanos(ts, now) >= 0,
        (spec_ttl_nanos(ts, now) == 0) <==> (now.as_nanos() >= ts.as_nanos() + VALIDITY_NANOS),
{
}

} // verus!
