//! Values the REST boundary derives from the engine: query and response
//! shapes made of plain data, and the `Cache-Control: max-age` seconds for
//! each endpoint. Header construction and JSON live at the boundary itself.

use vstd::prelude::*;

use crate::clock::Timestamp;
use crate::freshness::Expiring;

verus! {

/// Query string of the price endpoint: the quote asset id.
#[derive(Debug, Clone)]
pub struct GetPriceQuery {
    pub quote: String,
}

/// Response of a portfolio import: the new id and when it expires, both
/// already rendered as display strings by the boundary.
#[derive(Debug, Clone)]
pub struct ImportPortfolioResponse {
    pub id: String,
    pub expires_at: String,
}

/// `max-age` seconds for a priced entity: its remaining validity in whole
/// seconds, rounded down — never negative, and zero once the entity's price
/// has aged out.
pub fn cache_control_max_age<T: Expiring>(entity: &T, now: &Timestamp) -> (r: u64)
    requires
        entity.wf(),
        now.wf(),
    ensures
        r == entity.spec_ttl(*now) / 1_000_000_000,
{
    let ttl = entity.time_to_live_at(now);
    ttl.as_secs()
}

/// `max-age` seconds of the asset-list endpoints: a fixed five-minute
/// policy, independent of any price's freshness.
pub fn assets_cache_max_age_secs() -> (r: u64)
    ensures
        r == 300,
{
    300
}

} // verus!
