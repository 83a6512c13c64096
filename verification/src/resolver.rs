//! The conversion-rate resolver: from a requested asset pair to the
//! applicable market's price.
//!
//! The resolver consumes its collaborators' answers as plain values: the
//! asset registry's resolution of each id, and the market the lookup
//! collaborator returned for the pair. It validates the query, lets the
//! market-data cache settle the entry (see [`crate::cache`]), and serves the
//! cached price or the precise error. No retries: retry policy belongs to
//! the refresh collaborator.

use vstd::prelude::*;

use crate::entity::{Asset, AssetId, Market, Price};
use crate::error::DcaError;

verus! {

/// A validated conversion-rate query: both requested asset ids resolved
/// against the asset registry.
#[derive(Debug, Clone)]
pub struct ConversionRateQuery {
    pub base: Asset,
    pub quote: Asset,
}

impl ConversionRateQuery {
    /// Validates a query from the registry's answers. `base` and `quote`
    /// are what the registry resolved `base_id` and `quote_id` to, `None`
    /// for an id unknown to it. Succeeds exactly when both resolved;
    /// otherwise fails with `AssetNotFound` naming the first unresolved id.
    pub fn try_new(
        base_id: &AssetId,
        quote_id: &AssetId,
        base: Option<Asset>,
        quote: Option<Asset>,
    ) -> (r: Result<ConversionRateQuery, DcaError>)
        ensures
            match (base, quote) {
                (Some(b), Some(q)) => r == Ok::<ConversionRateQuery, DcaError>(
                    (ConversionRateQuery { base: b, quote: q }),
                ),
                (None, _) => r matches Err(DcaError::AssetNotFound(a)) && a@ == base_id@,
                (Some(_), None) => r matches Err(DcaError::AssetNotFound(a)) && a@
                    == quote_id@,
            },
    {
        match (base, quote) {
            (Some(b), Some(q)) => Ok(ConversionRateQuery { base: b, quote: q }),
            (None, _) => Err(DcaError::AssetNotFound(base_id.clone())),
            (Some(_), None) => Err(DcaError::AssetNotFound(quote_id.clone())),
        }
    }
}

/// Completes a conversion-rate query once the cache has settled: serves the
/// cached price of the market the lookup collaborator returned. Succeeds
/// exactly when the market is known and carries a price; otherwise fails
/// with `PriceNotAvailable` naming the queried pair.
pub fn conversion_rate(query: &ConversionRateQuery, market: Option<&Market>) -> (r: Result<
    Price,
    DcaError,
>)
    ensures
        (match market {
            Some(m) => m.price is Some,
            None => false,
        }) <==> r is Ok,
        (match market {
            Some(m) => match m.price {
                Some(p) => r == Ok::<Price, DcaError>(p),
                None => true,
            },
            None => true,
        }),
        r matches Err(e) ==> e matches DcaError::PriceNotAvailable(b, q) && b@
            == query.base.spec_id()@ && q@ == query.quote.spec_id()@,
{
    match market {
        Some(m) => {
            match m.price() {
                Some(p) => Ok(*p),
                None => Err(
                    DcaError::PriceNotAvailable(
                        query.base.id().clone(),
                        query.quote.id().clone(),
                    ),
                ),
            }
        },
        None => Err(
            DcaError::PriceNotAvailable(query.base.id().clone(), query.quote.id().clone()),
        ),
    }
}

} // verus!
