use crypto_price_tracker_v2::config::Plan;
use crypto_price_tracker_v2::prices::{ApiAccess, CoinGeckoSource, PriceBook, PriceCache, Quote};
use crypto_price_tracker_v2::time::Timestamp;
use crypto_price_tracker_v2::Dec;

fn d(s: &str) -> Dec {
    let x = <rust_decimal::Decimal as std::str::FromStr>::from_str(s).unwrap();
    Dec::new(x.mantissa(), x.scale())
}

fn n(x: Dec) -> rust_decimal::Decimal {
    rust_decimal::Decimal::from_i128_with_scale(x.mantissa, x.scale)
}

fn midnight(s: &str) -> Timestamp {
    let t = chrono::NaiveDate::parse_from_str(s, "%Y-%m-%d").unwrap().and_hms_opt(0, 0, 0).unwrap().and_utc();
    Timestamp::new(t.timestamp(), 0)
}

fn quote(price: &str, change: &str) -> Quote {
    Quote {
        price: d(price),
        change_24h: d(change),
        change_7d: None,
        market_cap: None,
        volume_24h: None,
        ath: None,
    }
}

fn noon() -> Timestamp {
    Timestamp::new(midnight("2026-06-01").secs + 12 * 3600, 0)
}

fn book(at: Timestamp) -> PriceBook {
    PriceBook { quotes: vec![("bitcoin".to_string(), quote("50000", "1.0"))], fetched_at: at, stale: false }
}

#[test]
fn price_map_extracts_decimal_prices() {
    let mut b = book(noon());
    b.quotes[0].1.change_7d = Some(d("3.0"));
    let pm = b.price_map();
    assert_eq!(pm.len(), 1);
    assert_eq!(pm[0].0, "bitcoin");
    assert!(pm[0].1.eq(&d("50000")));
}

#[test]
fn cache_path_is_pricebook_json_in_dir() {
    let cache = PriceCache::new("/tmp/cpt2_cache_hit".to_string(), 3600);
    assert_eq!(cache.path(), "/tmp/cpt2_cache_hit/pricebook.json");
    assert_eq!(cache.dir(), "/tmp/cpt2_cache_hit");
}

#[test]
fn store_then_load_within_ttl_hits() {
    let cache = PriceCache::new("/tmp/cpt2_cache_hit".to_string(), 3600);
    let now = Timestamp::new(noon().secs + 10, 0);
    let loaded = cache.load_fresh(Some(book(noon())), now).unwrap();
    assert!(loaded.quotes[0].1.price.eq(&d("50000")));
}

#[test]
fn load_fresh_misses_when_expired() {
    let cache = PriceCache::new("/tmp/cpt2_cache_expired".to_string(), 0);
    assert!(cache.load_fresh(Some(book(noon())), noon()).is_none());
    let cache = PriceCache::new("/tmp/cpt2_cache_expired".to_string(), 60);
    assert!(cache.load_fresh(Some(book(noon())), Timestamp::new(noon().secs + 60, 0)).is_none());
    assert!(cache.load_fresh(Some(book(noon())), Timestamp::new(noon().secs + 59, 0)).is_some());
}

#[test]
fn load_last_good_returns_stale_marked_book() {
    let cache = PriceCache::new("/tmp/cpt2_cache_lastgood".to_string(), 0);
    let lg = cache.load_last_good(Some(book(noon()))).unwrap();
    assert!(lg.stale);
    assert!(lg.quotes[0].1.price.eq(&d("50000")));
}

#[test]
fn load_missing_file_returns_none() {
    let cache = PriceCache::new("/tmp/cpt2_cache_missing".to_string(), 3600);
    assert!(cache.load_fresh(None, noon()).is_none());
    assert!(cache.load_last_good(None).is_none());
}

#[test]
fn huge_ttl_wraps_to_negative() {
    let cache = PriceCache::new("/tmp/x".to_string(), u64::MAX);
    assert!(cache.load_fresh(Some(book(noon())), noon()).is_none());
}

#[test]
fn coingecko_source_selects_endpoint_by_key_and_plan() {
    match CoinGeckoSource::new(Some("k"), Plan::Pro).access() {
        ApiAccess::Pro(k) => assert_eq!(k, "k"),
        _ => panic!(),
    }
    match CoinGeckoSource::new(Some("k"), Plan::Demo).access() {
        ApiAccess::Demo(k) => assert_eq!(k, "k"),
        _ => panic!(),
    }
    assert!(matches!(CoinGeckoSource::new(None, Plan::Pro).access(), ApiAccess::Public));
    let default: CoinGeckoSource = Default::default();
    assert!(matches!(default.access(), ApiAccess::Public));
}
