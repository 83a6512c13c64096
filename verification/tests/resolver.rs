use dcapal_backend::cache::{MarketDataCache, RefreshStep};
use dcapal_backend::clock::Timestamp;
use dcapal_backend::entity::{Asset, Crypto, Fiat, Market, Price};
use dcapal_backend::error::DcaError;
use dcapal_backend::resolver::{conversion_rate, ConversionRateQuery};
use dcapal_backend::rest::{assets_cache_max_age_secs, cache_control_max_age};

const DAY: i64 = 19_000 * 86_400;

fn btc() -> Asset {
    Asset::Crypto(Crypto::new_with_id("bitcoin".to_string()))
}

fn usd() -> Asset {
    Asset::Fiat(Fiat::new("usd".to_string(), "USD".to_string()))
}

#[test]
fn try_new_resolves_both_ids() {
    let q = ConversionRateQuery::try_new(
        &"bitcoin".to_string(),
        &"usd".to_string(),
        Some(btc()),
        Some(usd()),
    )
    .unwrap();
    assert_eq!(q.base.id(), "bitcoin");
    assert_eq!(q.quote.id(), "usd");
}

#[test]
fn try_new_reports_the_first_unknown_id() {
    let r = ConversionRateQuery::try_new(
        &"nonsense".to_string(),
        &"usd".to_string(),
        None,
        Some(usd()),
    );
    assert_eq!(r.unwrap_err(), DcaError::AssetNotFound("nonsense".to_string()));

    let r = ConversionRateQuery::try_new(
        &"bitcoin".to_string(),
        &"nonsense".to_string(),
        Some(btc()),
        None,
    );
    assert_eq!(r.unwrap_err(), DcaError::AssetNotFound("nonsense".to_string()));
}

#[test]
fn conversion_rate_serves_the_cached_price() {
    let q = ConversionRateQuery { base: btc(), quote: usd() };
    let p = Price::new(9, Timestamp::new(DAY, 0));
    let m = Market::new("btcusd".to_string(), btc(), usd(), Some(p));
    assert_eq!(conversion_rate(&q, Some(&m)).unwrap(), p);
}

#[test]
fn conversion_rate_without_price_names_the_pair() {
    let q = ConversionRateQuery { base: btc(), quote: usd() };
    let m = Market::new("btcusd".to_string(), btc(), usd(), None);
    let expected = DcaError::PriceNotAvailable("bitcoin".to_string(), "usd".to_string());
    assert_eq!(conversion_rate(&q, Some(&m)).unwrap_err(), expected);
    assert_eq!(conversion_rate(&q, None).unwrap_err(), expected);
}

#[test]
fn price_request_three_minutes_in_serves_max_age_120() {
    // End to end over the engine: the cache holds a price timestamped three
    // minutes ago; a read serves it with two minutes of cacheability left.
    let ts = Timestamp::new(DAY + 10 * 3600, 0);
    let now = Timestamp::new(DAY + 10 * 3600 + 180, 0);
    let mut cache = MarketDataCache::new();
    cache.set(Market::new("btcusd".to_string(), btc(), usd(), Some(Price::new(11, ts))));

    let q = ConversionRateQuery::try_new(
        &"bitcoin".to_string(),
        &"usd".to_string(),
        Some(btc()),
        Some(usd()),
    )
    .unwrap();
    let id = "btcusd".to_string();
    assert!(matches!(cache.get_or_refresh(&id, &now), RefreshStep::Fresh));
    let price = conversion_rate(&q, cache.get(&id)).unwrap();
    assert_eq!(price.value_bits, 11);
    assert_eq!(cache_control_max_age(&price, &now), 120);
}

#[test]
fn price_request_for_unknown_market_is_an_error() {
    // The market is wholly unknown: the read fails, it does not serve an
    // empty body.
    let q = ConversionRateQuery { base: btc(), quote: usd() };
    let mut cache = MarketDataCache::new();
    let id = "btcusd".to_string();
    let now = Timestamp::new(DAY, 0);
    assert!(matches!(cache.get_or_refresh(&id, &now), RefreshStep::MustFetch));
    // The provider knows no such market either.
    assert!(cache.complete_refresh(&id, None).is_err());
    assert!(conversion_rate(&q, cache.get(&id)).is_err());
}

#[test]
fn asset_lists_use_the_fixed_five_minute_policy() {
    assert_eq!(assets_cache_max_age_secs(), 300);
}

#[test]
fn max_age_is_zero_for_an_aged_out_price() {
    let ts = Timestamp::new(DAY, 0);
    let now = Timestamp::new(DAY + 3600, 0);
    let price = Price::new(0, ts);
    assert_eq!(cache_control_max_age(&price, &now), 0);
}
