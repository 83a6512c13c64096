use dcapal_backend::cache::{MarketDataCache, RefreshStep};
use dcapal_backend::clock::Timestamp;
use dcapal_backend::entity::{Asset, Crypto, Fiat, Market, Price};
use dcapal_backend::error::DcaError;

const DAY: i64 = 19_000 * 86_400;

fn market_with_price(id: &str, price: Option<Price>) -> Market {
    let base = Asset::Crypto(Crypto::new_with_id("bitcoin".to_string()));
    let quote = Asset::Fiat(Fiat::new("usd".to_string(), "USD".to_string()));
    Market::new(id.to_string(), base, quote, price)
}

#[test]
fn get_returns_what_set_stored() {
    let mut cache = MarketDataCache::new();
    assert!(cache.get(&"btcusd".to_string()).is_none());
    let m = market_with_price("btcusd", Some(Price::new(7, Timestamp::new(DAY, 0))));
    cache.set(m);
    let got = cache.get(&"btcusd".to_string()).unwrap();
    assert_eq!(got.id, "btcusd");
    assert_eq!(got.price().unwrap().value_bits, 7);
    assert!(cache.get(&"ethusd".to_string()).is_none());
}

#[test]
fn set_overwrites_the_same_key() {
    let mut cache = MarketDataCache::new();
    cache.set(market_with_price("btcusd", Some(Price::new(1, Timestamp::new(DAY, 0)))));
    cache.set(market_with_price("btcusd", Some(Price::new(2, Timestamp::new(DAY + 60, 0)))));
    let got = cache.get(&"btcusd".to_string()).unwrap();
    assert_eq!(got.price().unwrap().value_bits, 2);
}

#[test]
fn fresh_entry_is_served_without_refresh() {
    let mut cache = MarketDataCache::new();
    let ts = Timestamp::new(DAY + 10 * 3600 + 7 * 60, 0);
    cache.set(market_with_price("btcusd", Some(Price::new(1, ts))));
    let now = Timestamp::new(DAY + 10 * 3600 + 8 * 60, 0);
    let step = cache.get_or_refresh(&"btcusd".to_string(), &now);
    assert!(matches!(step, RefreshStep::Fresh));
}

#[test]
fn concurrent_requests_collapse_to_one_fetch() {
    // N callers race on the same outdated key: exactly one is told to call
    // the provider, and after completion every caller reads the same price.
    let mut cache = MarketDataCache::new();
    let stale_ts = Timestamp::new(DAY + 10 * 3600, 0);
    cache.set(market_with_price("btcusd", Some(Price::new(1, stale_ts))));
    let now = Timestamp::new(DAY + 11 * 3600, 0);

    let id = "btcusd".to_string();
    let mut provider_calls = 0;
    for _ in 0..5 {
        match cache.get_or_refresh(&id, &now) {
            RefreshStep::MustFetch => provider_calls += 1,
            RefreshStep::Wait => {}
            RefreshStep::Fresh => panic!("stale entry served as fresh"),
        }
    }
    assert_eq!(provider_calls, 1);

    let fetched = Price::new(42, now);
    assert!(cache.complete_refresh(&id, Some(fetched)).is_ok());
    for _ in 0..5 {
        let got = cache.get(&id).unwrap();
        assert_eq!(got.price().unwrap(), fetched);
    }
}

#[test]
fn refresh_restarts_after_completion() {
    let mut cache = MarketDataCache::new();
    cache.set(market_with_price("btcusd", Some(Price::new(1, Timestamp::new(DAY, 0)))));
    let now = Timestamp::new(DAY + 3600, 0);
    let id = "btcusd".to_string();
    assert!(matches!(cache.get_or_refresh(&id, &now), RefreshStep::MustFetch));
    assert!(cache.complete_refresh(&id, None).is_ok());
    // The key was released: the next stale read may fetch again.
    assert!(matches!(cache.get_or_refresh(&id, &now), RefreshStep::MustFetch));
}

#[test]
fn missing_entry_triggers_a_fetch() {
    let mut cache = MarketDataCache::new();
    let now = Timestamp::new(DAY, 0);
    let step = cache.get_or_refresh(&"btcusd".to_string(), &now);
    assert!(matches!(step, RefreshStep::MustFetch));
}

#[test]
fn failed_refresh_keeps_stale_data_and_soft_fails() {
    let mut cache = MarketDataCache::new();
    let stale = Price::new(1, Timestamp::new(DAY, 0));
    cache.set(market_with_price("btcusd", Some(stale)));
    let id = "btcusd".to_string();
    let now = Timestamp::new(DAY + 3600, 0);
    assert!(matches!(cache.get_or_refresh(&id, &now), RefreshStep::MustFetch));
    // Provider failed: the stale entry is kept and served.
    assert!(cache.complete_refresh(&id, None).is_ok());
    assert_eq!(cache.get(&id).unwrap().price().unwrap(), stale);
}

#[test]
fn failed_refresh_with_nothing_cached_propagates() {
    let mut cache = MarketDataCache::new();
    let id = "btcusd".to_string();
    let now = Timestamp::new(DAY, 0);
    assert!(matches!(cache.get_or_refresh(&id, &now), RefreshStep::MustFetch));
    assert_eq!(cache.complete_refresh(&id, None), Err(DcaError::RefreshFailed));
    // A price for an entry that was never stored cannot be applied either.
    assert!(matches!(cache.get_or_refresh(&id, &now), RefreshStep::MustFetch));
    let fetched = Price::new(42, now);
    assert_eq!(cache.complete_refresh(&id, Some(fetched)), Err(DcaError::RefreshFailed));
}

#[test]
fn market_without_price_counts_as_outdated_in_the_cache() {
    let mut cache = MarketDataCache::new();
    cache.set(market_with_price("btcusd", None));
    let now = Timestamp::new(DAY, 0);
    let step = cache.get_or_refresh(&"btcusd".to_string(), &now);
    assert!(matches!(step, RefreshStep::MustFetch));
}

#[test]
fn different_keys_refresh_independently() {
    let mut cache = MarketDataCache::new();
    let now = Timestamp::new(DAY, 0);
    let btc = "btcusd".to_string();
    let eth = "ethusd".to_string();
    assert!(matches!(cache.get_or_refresh(&btc, &now), RefreshStep::MustFetch));
    // A second key is not blocked by the first key's in-flight refresh.
    assert!(matches!(cache.get_or_refresh(&eth, &now), RefreshStep::MustFetch));
    assert!(matches!(cache.get_or_refresh(&btc, &now), RefreshStep::Wait));
    assert!(matches!(cache.get_or_refresh(&eth, &now), RefreshStep::Wait));
}
