use crypto_price_tracker_v2::model::{Method, Tx};
use crypto_price_tracker_v2::perf::{reconstruct_series, record_snapshot, valuation_as_of, Snapshot};
use crypto_price_tracker_v2::time::Timestamp;
use crypto_price_tracker_v2::Dec;

fn d(s: &str) -> Dec {
    let x = <rust_decimal::Decimal as std::str::FromStr>::from_str(s).unwrap();
    Dec::new(x.mantissa(), x.scale())
}

fn n(x: Dec) -> rust_decimal::Decimal {
    rust_decimal::Decimal::from_i128_with_scale(x.mantissa, x.scale)
}

fn midnight(s: &str) -> Timestamp {
    let t = chrono::NaiveDate::parse_from_str(s, "%Y-%m-%d").unwrap().and_hms_opt(0, 0, 0).unwrap().and_utc();
    Timestamp::new(t.timestamp(), 0)
}

fn day(s: &str) -> Timestamp {
    midnight(s)
}

#[test]
fn record_snapshot_dedupes_within_interval() {
    let t0 = Timestamp::new(day("2026-06-01").secs + 12 * 3600, 0);
    let t1 = Timestamp::new(t0.secs + 30, 0);
    let t2 = Timestamp::new(t0.secs + 90, 0);
    let h0: Vec<Snapshot> = Vec::new();
    let h1 = record_snapshot(h0, d("100"), d("0"), d("0"), t0, 60).unwrap();
    assert_eq!(h1.len(), 1);
    assert!(record_snapshot(h1.clone(), d("101"), d("0"), d("0"), t1, 60).is_none());
    let h2 = record_snapshot(h1, d("102"), d("0"), d("0"), t2, 60).unwrap();
    assert_eq!(h2.len(), 2);
    assert!(h2[1].total_value.eq(&d("102")));
}

#[test]
fn reconstruct_values_holdings_as_of_each_day() {
    let txs = vec![Tx::Buy {
        timestamp: day("2024-01-01"),
        wallet: "w".to_string(),
        asset: "bitcoin".to_string(),
        quantity: d("1"),
        unit_price: d("100"),
        fee: d("0"),
    }];
    let hist = vec![(
        "bitcoin".to_string(),
        vec![(day("2024-01-01"), Some(d("100"))), (day("2024-01-02"), Some(d("150")))],
    )];
    let series = reconstruct_series(&txs, &hist, Method::Fifo);
    assert_eq!(series.len(), 2);
    assert!(series[1].total_value.eq(&d("150")));
    assert!(series[1].pl.eq(&d("50")));
}

#[test]
fn reconstruct_orders_dates_and_skips_earlier_events() {
    let txs = vec![Tx::Buy {
        timestamp: day("2024-01-02"),
        wallet: "w".to_string(),
        asset: "bitcoin".to_string(),
        quantity: d("2"),
        unit_price: d("100"),
        fee: d("0"),
    }];
    let hist = vec![
        ("bitcoin".to_string(), vec![(day("2024-01-03"), Some(d("120"))), (day("2024-01-01"), Some(d("90")))]),
        ("ethereum".to_string(), vec![(day("2024-01-02"), None)]),
    ];
    let series = reconstruct_series(&txs, &hist, Method::Fifo);
    assert_eq!(series.len(), 3);
    assert_eq!(series[0].date.secs, day("2024-01-01").secs);
    assert_eq!(series[2].date.secs, day("2024-01-03").secs);
    assert!(series[0].total_value.is_zero());
    assert!(series[1].cost.is_zero());
    assert!(series[1].total_value.is_zero());
    assert!(series[2].total_value.eq(&d("240")));
    assert!(series[2].cost.eq(&d("200")));
    assert!(series[2].pl.eq(&d("40")));
}

#[test]
fn reconstruct_skips_dates_whose_ledger_the_engine_rejects() {
    let txs = vec![
        Tx::Buy {
            timestamp: day("2024-01-01"),
            wallet: "w".to_string(),
            asset: "bitcoin".to_string(),
            quantity: d("1"),
            unit_price: d("100"),
            fee: d("0"),
        },
        Tx::Buy {
            timestamp: day("2024-01-02"),
            wallet: "w".to_string(),
            asset: "bitcoin".to_string(),
            quantity: d("1"),
            unit_price: d("100"),
            fee: d("-1"),
        },
    ];
    let hist = vec![(
        "bitcoin".to_string(),
        vec![(day("2024-01-01"), Some(d("100"))), (day("2024-01-02"), Some(d("150")))],
    )];
    let series = reconstruct_series(&txs, &hist, Method::Fifo);
    assert_eq!(series.len(), 1);
    assert_eq!(series[0].date.secs, day("2024-01-01").secs);
    assert!(valuation_as_of(&txs, &hist, Method::Fifo, day("2024-01-02")).is_none());
    let first = valuation_as_of(&txs, &hist, Method::Fifo, day("2024-01-01")).unwrap();
    assert!(first.total_value.eq(&d("100")));
}

#[test]
fn reconstruct_counts_an_intraday_event_on_its_own_day() {
    let txs = vec![Tx::Buy {
        timestamp: Timestamp::new(day("2024-01-01").secs + 12 * 3600, 0),
        wallet: "w".to_string(),
        asset: "bitcoin".to_string(),
        quantity: d("1"),
        unit_price: d("100"),
        fee: d("0"),
    }];
    let hist = vec![("bitcoin".to_string(), vec![(day("2024-01-01"), Some(d("100")))])];
    let series = reconstruct_series(&txs, &hist, Method::Fifo);
    assert_eq!(series.len(), 1);
    assert!(series[0].total_value.eq(&d("100")));
    assert!(series[0].cost.eq(&d("100")));
}
