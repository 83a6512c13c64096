//! The asset model: tradable instruments, trading pairs, observed prices and
//! OHLC bucketing windows.

use vstd::prelude::*;
use vstd::string::*;

use crate::clock::{Timestamp, Ttl, NANOS_PER_SEC, TS_BIAS_SECS, SECS_PER_DAY};
use crate::clock::lemma_bucket_floor;
use crate::freshness::{spec_price_outdated, spec_ttl_nanos, Expiring, VALIDITY_SECS};

verus! {

/// Lowercase provider-stable identifier of an asset (e.g. `"bitcoin"`).
pub type AssetId = String;
/// Opaque key of a market (e.g. a provider pair id).
pub type MarketId = String;

/// The sequence of characters `str::to_uppercase` maps a string to.
pub uninterp spec fn upper_of(s: Seq<char>) -> Seq<char>;

/// Relies on `str::to_uppercase`: the result is a function of the input
/// characters alone.
#[verifier::external_body]
fn to_uppercase_string(s: &str) -> (r: String)
    ensures
        r@ == upper_of(s@),
{
    s.to_uppercase()
}

/// A crypto token.
#[derive(Debug, Clone)]
pub struct Crypto {
    pub id: AssetId,
    pub symbol: String,
}

impl Crypto {
    /// Builds a crypto asset whose display ticker is the uppercased id.
    pub fn new_with_id(id: AssetId) -> (r: Self)
        ensures
            r.id@ == id@,
            r.symbol@ == upper_of(id@),
    {
        let symbol = to_uppercase_string(id.as_str());
        Crypto { id, symbol }
    }
}

/// A fiat currency; its display ticker is supplied explicitly and need not
/// equal the id.
#[derive(Debug, Clone)]
pub struct Fiat {
    pub id: AssetId,
    pub symbol: String,
}

impl Fiat {
    pub fn new(id: AssetId, symbol: String) -> (r: Self)
        ensures
            r.id@ == id@,
            r.symbol@ == symbol@,
    {
        Fiat { id, symbol }
    }
}

/// A tradable instrument: crypto token or fiat currency.
#[derive(Debug, Clone)]
pub enum Asset {
    Crypto(Crypto),
    Fiat(Fiat),
}

/// The kind of an asset, without its data.
#[derive(Debug, Clone, Copy, PartialEq, Eq, Structural)]
pub enum AssetKind {
    Crypto,
    Fiat,
}

impl Asset {
    /// The provider-stable identifier of the asset.
    pub open spec fn spec_id(self) -> AssetId {
        match self {
            Asset::Crypto(a) => a.id,
            Asset::Fiat(a) => a.id,
        }
    }

    pub open spec fn spec_kind(self) -> AssetKind {
        match self {
            Asset::Crypto(_) => AssetKind::Crypto,
            Asset::Fiat(_) => AssetKind::Fiat,
        }
    }

    pub fn id(&self) -> (r: &AssetId)
        ensures
            *r == self.spec_id(),
    {
        match self {
            Asset::Crypto(a) => &a.id,
            Asset::Fiat(a) => &a.id,
        }
    }

    pub fn is_fiat(&self) -> (r: bool)
        ensures
            r == (self is Fiat),
    {
        matches!(self, Asset::Fiat(_))
    }

    pub fn kind(&self) -> (r: AssetKind)
        ensures
            r == self.spec_kind(),
    {
        match self {
            Asset::Crypto(_) => AssetKind::Crypto,
            Asset::Fiat(_) => AssetKind::Fiat,
        }
    }
}

impl AssetKind {
    /// Display name of the kind.
    pub fn name(&self) -> (r: &'static str)
        ensures
            self is Crypto ==> r@ == "Crypto"@,
            self is Fiat ==> r@ == "Fiat"@,
    {
        match self {
            AssetKind::Crypto => "Crypto",
            AssetKind::Fiat => "Fiat",
        }
    }
}

/// The last observed exchange rate of a market at some instant.
///
/// The rate itself is carried opaquely as the bit pattern of an IEEE-754
/// double (`f64::to_bits` / `f64::from_bits` at the boundary): the engine
/// never reads the value, only the timestamp.
#[derive(Debug, Clone, Copy, PartialEq, Eq, Structural)]
pub struct Price {
    pub value_bits: u64,
    pub ts: Timestamp,
}

impl Price {
    pub fn new(value_bits: u64, ts: Timestamp) -> (r: Self)
        ensures
            r == (Price { value_bits, ts }),
    {
        Price { value_bits, ts }
    }
}

impl Expiring for Price {
    open spec fn wf(&self) -> bool {
        self.ts.wf()
    }

    open spec fn spec_is_outdated(&self, now: Timestamp) -> bool {
        spec_price_outdated(self.ts, now)
    }

    open spec fn spec_ttl(&self, now: Timestamp) -> int {
        spec_ttl_nanos(self.ts, now)
    }

    fn is_outdated_at(&self, now: &Timestamp) -> (r: bool) {
        if now.day_number() != self.ts.day_number() {
            return true;
        }
        if now.hour_number() != self.ts.hour_number() {
            return true;
        }
        now.bucket_number() > self.ts.bucket_number()
    }

    fn time_to_live_at(&self, now: &Timestamp) -> (r: Ttl) {
        let end_secs: i64 = self.ts.secs + VALIDITY_SECS;
        let end_nanos: u32 = self.ts.nanos;
        if now.secs > end_secs || (now.secs == end_secs && now.nanos >= end_nanos) {
            Ttl::zero()
        } else if now.nanos <= end_nanos {
            Ttl { secs: (end_secs - now.secs) as u64, nanos: end_nanos - now.nanos }
        } else {
            Ttl {
                secs: (end_secs - now.secs - 1) as u64,
                nanos: NANOS_PER_SEC + end_nanos - now.nanos,
            }
        }
    }
}

/// Granularity of an OHLC aggregation window.
#[derive(Debug, Clone, Copy, PartialEq, Eq, Structural)]
pub enum OHLCFrequency {
    Minutes5,
    Daily,
}

impl OHLCFrequency {
    /// The half-open `[low, high)` window a tick at `ts` falls into.
    ///
    /// `Minutes5`: the upper bound is `ts` with the minute floored to a
    /// multiple of 5 and seconds and sub-seconds zeroed; the lower bound is
    /// exactly 60 minutes (12 buckets) earlier. `Daily`: the upper bound is
    /// `ts` itself, unfloored; the lower bound is the start of the previous
    /// calendar day.
    pub fn ohlc_range(&self, ts: Timestamp) -> (r: (Timestamp, Timestamp))
        requires
            ts.wf(),
        ensures
            self is Minutes5 ==> {
                &&& r.1.day_index() == ts.day_index()
                &&& r.1.hour_of_day() == ts.hour_of_day()
                &&& r.1.minute_of_hour() == ts.bucket_of_hour()
                &&& r.1.sec_of_day() % 60 == 0
                &&& r.1.nanos == 0
                &&& r.0.secs == r.1.secs - 3600
                &&& r.0.nanos == 0
                &&& r.0.as_nanos() == r.1.as_nanos() - 3_600_000_000_000
            },
            self is Daily ==> {
                &&& r.1 == ts
                &&& r.0.day_index() == ts.day_index() - 1
                &&& r.0.sec_of_day() == 0
                &&& r.0.nanos == 0
            },
    {
        match self {
            OHLCFrequency::Minutes5 => Self::ohlc_range_minutes_5(ts),
            OHLCFrequency::Daily => Self::ohlc_range_daily(ts),
        }
    }

    fn ohlc_range_minutes_5(ts: Timestamp) -> (r: (Timestamp, Timestamp))
        requires
            ts.wf(),
        ensures
            r.1.day_index() == ts.day_index(),
            r.1.hour_of_day() == ts.hour_of_day(),
            r.1.minute_of_hour() == ts.bucket_of_hour(),
            r.1.sec_of_day() % 60 == 0,
            r.1.nanos == 0,
            r.0.secs == r.1.secs - 3600,
            r.0.nanos == 0,
            r.0.as_nanos() == r.1.as_nanos() - 3_600_000_000_000,
    {
        let biased: u64 = ts.biased();
        let upper_biased: u64 = (biased / 300) * 300;
        let upper_secs: i64 = upper_biased as i64 - TS_BIAS_SECS;
        let range_upper = Timestamp { secs: upper_secs, nanos: 0 };
        let range_low = Timestamp { secs: upper_secs - 3600, nanos: 0 };
        proof {
            lemma_bucket_floor(ts, range_upper);
        }
        (range_low, range_upper)
    }

    fn ohlc_range_daily(ts: Timestamp) -> (r: (Timestamp, Timestamp))
        requires
            ts.wf(),
        ensures
            r.1 == ts,
            r.0.day_index() == ts.day_index() - 1,
            r.0.sec_of_day() == 0,
            r.0.nanos == 0,
    {
        let biased: u64 = ts.biased();
        let day: u64 = biased / SECS_PER_DAY;
        proof {
            vstd::arithmetic::div_mod::lemma_fundamental_div_mod(
                biased as int,
                SECS_PER_DAY as int,
            );
            vstd::arithmetic::div_mod::lemma_mod_bound(biased as int, SECS_PER_DAY as int);
            assert(86400 * (day as int) <= biased as int);
            assert(day as int <= 220_000_000);
            assert((day as int - 1) * 86400 == 86400 * (day as int) - 86400) by (nonlinear_arith);
        }
        let low_secs: i64 = (day as i64 - 1) * (SECS_PER_DAY as i64) - TS_BIAS_SECS;
        let range_low = Timestamp { secs: low_secs, nanos: 0 };
        proof {
            vstd::arithmetic::div_mod::lemma_fundamental_div_mod_converse(
                range_low.biased_secs(),
                SECS_PER_DAY as int,
                ts.day_index() - 1,
                0,
            );
        }
        (range_low, ts)
    }
}

/// An ordered trading pair between a base and a quote asset, with the most
/// recently observed price, if any.
///
/// `pair` is the display string `"{BASE}/{QUOTE}"`, uppercased, computed once
/// at construction from the two asset ids and never recomputed; replacing
/// the cached price leaves it untouched.
#[derive(Debug, Clone)]
pub struct Market {
    pub id: MarketId,
    pub pair: String,
    pub base: Asset,
    pub quote: Asset,
    pub price: Option<Price>,
}

/// The display pair string derived from two asset ids: both uppercased,
/// joined by a slash.
pub open spec fn spec_pair(base_id: Seq<char>, quote_id: Seq<char>) -> Seq<char> {
    upper_of(base_id) + "/"@ + upper_of(quote_id)
}

impl Market {
    pub fn new(id: MarketId, base: Asset, quote: Asset, price: Option<Price>) -> (r: Self)
        ensures
            r.id@ == id@,
            r.base == base,
            r.quote == quote,
            r.price == price,
            r.pair@ == spec_pair(base.spec_id()@, quote.spec_id()@),
    {
        let mut pair = to_uppercase_string(base.id().as_str());
        pair.append("/");
        let quote_upper = to_uppercase_string(quote.id().as_str());
        pair.append(quote_upper.as_str());
        Market { id, pair, base, quote, price }
    }

    /// The cached price, if one has been observed.
    pub fn price(&self) -> (r: &Option<Price>)
        ensures
            *r == self.price,
    {
        &self.price
    }

    /// Replaces the cached price wholesale; every other field, the pair
    /// string included, stays as it was.
    pub fn set_price(&mut self, price: Price)
        ensures
            *final(self) == (Market { price: Some(price), ..*old(self) }),
    {
        self.price = Some(price);
    }

    /// A market is fiat iff both legs are fiat.
    pub fn is_fiat(&self) -> (r: bool)
        ensures
            r == (self.base is Fiat && self.quote is Fiat),
    {
        self.base.is_fiat() && self.quote.is_fiat()
    }

    /// Whether a price is present *and* stale. Contrast with
    /// [`Expiring::is_outdated`], where a missing price also counts as
    /// outdated (there is nothing fresh to serve).
    pub fn is_price_outdated(&self, now: &Timestamp) -> (r: bool)
        requires
            self.wf(),
            now.wf(),
        ensures
            r == (match self.price {
                Some(p) => spec_price_outdated(p.ts, *now),
                None => false,
            }),
    {
        match &self.price {
            Some(p) => p.is_outdated_at(now),
            None => false,
        }
    }
}

impl Expiring for Market {
    open spec fn wf(&self) -> bool {
        match self.price {
            Some(p) => p.ts.wf(),
            None => true,
        }
    }

    /// A market with no cached price is outdated: there is nothing fresh to
    /// serve, and its remaining validity is zero.
    open spec fn spec_is_outdated(&self, now: Timestamp) -> bool {
        match self.price {
            Some(p) => spec_price_outdated(p.ts, now),
            None => true,
        }
    }

    open spec fn spec_ttl(&self, now: Timestamp) -> int {
        match self.price {
            Some(p) => spec_ttl_nanos(p.ts, now),
            None => 0,
        }
    }

    fn is_outdated_at(&self, now: &Timestamp) -> (r: bool) {
        match &self.price {
            Some(p) => p.is_outdated_at(now),
            None => true,
        }
    }

    fn time_to_live_at(&self, now: &Timestamp) -> (r: Ttl) {
        match &self.price {
            Some(p) => p.time_to_live_at(now),
            None => Ttl::zero(),
        }
    }
}

} // verus!
