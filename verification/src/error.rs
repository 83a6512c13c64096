//! Failures surfaced by the market-data engine.

use vstd::prelude::*;

use crate::entity::AssetId;

verus! {

/// The error taxonomy of the engine.
///
/// `AssetNotFound` — an asset id unknown to the registry; a client error,
/// never retried. `PriceNotAvailable` — the pair is known but no price, not
/// even a stale one, could be obtained. `RefreshFailed` — the upstream
/// provider call failed and there was no stale entry to fall back on.
#[derive(Debug, Clone, PartialEq, Eq)]
pub enum DcaError {
    AssetNotFound(AssetId),
    PriceNotAvailable(AssetId, AssetId),
    RefreshFailed,
}

} // verus!
