//! Market-data freshness and conversion-rate engine for a portfolio-tracking
//! backend.
//!
//! The crate models tradable assets and trading pairs, decides when a cached
//! price is stale, computes how long a price remains valid, buckets history
//! into OHLC windows, keeps an in-memory market-data cache that collapses
//! concurrent refreshes of the same key into one provider call, and resolves
//! a conversion rate between two assets together with the cacheability that
//! the HTTP boundary derives from it.

pub mod cache;
pub mod clock;
pub mod config;
pub mod entity;
pub mod error;
pub mod freshness;
pub mod profile;
pub mod resolver;
pub mod rest;
