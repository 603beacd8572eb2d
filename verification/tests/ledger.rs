use crypto_price_tracker_v2::ledger::{assets, import_rows, lines_of, parse_csv_row};
use crypto_price_tracker_v2::model::{IncomeKind, Tx};
use crypto_price_tracker_v2::time::Timestamp;
use crypto_price_tracker_v2::Dec;

fn d(s: &str) -> Dec {
    let x = <rust_decimal::Decimal as std::str::FromStr>::from_str(s).unwrap();
    Dec::new(x.mantissa(), x.scale())
}

fn n(x: Dec) -> rust_decimal::Decimal {
    rust_decimal::Decimal::from_i128_with_scale(x.mantissa, x.scale)
}

fn midnight(s: &str) -> Timestamp {
    let t = chrono::NaiveDate::parse_from_str(s, "%Y-%m-%d").unwrap().and_hms_opt(0, 0, 0).unwrap().and_utc();
    Timestamp::new(t.timestamp(), 0)
}

fn day(s: &str) -> Timestamp {
    midnight(s)
}

fn sample() -> Vec<Tx> {
    vec![
        Tx::Buy {
            timestamp: day("2021-01-01"),
            wallet: "coinbase".to_string(),
            asset: "bitcoin".to_string(),
            quantity: d("0.5"),
            unit_price: d("30000"),
            fee: d("5"),
        },
        Tx::Income {
            timestamp: day("2021-06-01"),
            wallet: "kraken".to_string(),
            asset: "ethereum".to_string(),
            quantity: d("1.2"),
            value: d("2400"),
            source: IncomeKind::Staking,
        },
    ]
}

#[test]
fn derives_distinct_assets_sorted() {
    let v = assets(&sample());
    assert_eq!(v, vec!["bitcoin".to_string(), "ethereum".to_string()]);
}

#[test]
fn assets_cover_both_legs_of_a_trade_once() {
    let mut txs = sample();
    txs.push(Tx::Trade {
        timestamp: day("2022-01-01"),
        wallet: "w".to_string(),
        from_asset: "solana".to_string(),
        from_quantity: d("1"),
        to_asset: "bitcoin".to_string(),
        to_quantity: d("0.01"),
        value: d("100"),
        fee: d("0"),
    });
    assert_eq!(
        assets(&txs),
        vec!["bitcoin".to_string(), "ethereum".to_string(), "solana".to_string()]
    );
    assert!(assets(&[]).is_empty());
}

#[test]
fn import_maps_buys_sells_optional_wallet() {
    let text = "date,coin,action,quantity,price_usd,fee_usd,wallet\n\
        2021-01-01,bitcoin,buy,0.5,30000,5,coinbase\n2021-06-01,bitcoin,sell,0.2,40000,2\n";
    let out = import_rows(Vec::new(), text);
    assert_eq!((out.added, out.skipped), (2, 0));
    match &out.ledger[0] {
        Tx::Buy { wallet, asset, .. } => {
            assert_eq!(wallet, "coinbase");
            assert_eq!(asset, "bitcoin");
        }
        _ => panic!(),
    }
    match &out.ledger[1] {
        Tx::Sell { wallet, .. } => assert_eq!(wallet, "default"),
        _ => panic!(),
    }
}

#[test]
fn import_dedups() {
    let text = "date,coin,action,quantity,price_usd,fee_usd\n2021-01-01,bitcoin,buy,1,30000,0\n";
    let first = import_rows(Vec::new(), text);
    assert_eq!((first.added, first.skipped), (1, 0));
    let second = import_rows(first.ledger, text);
    assert_eq!((second.added, second.skipped), (0, 1));
    assert_eq!(second.ledger.len(), 1);
}

#[test]
fn import_dedups_numerically_equal_rows() {
    let text = "date,coin,action,quantity,price_usd,fee_usd\n2021-01-01,bitcoin,buy,1,30000,0\n2021-01-01,bitcoin,buy,1.0,30000.00,\n";
    let out = import_rows(Vec::new(), text);
    assert_eq!((out.added, out.skipped), (1, 1));
}

#[test]
fn import_skips_invalid_and_defaults_fee() {
    let text = "date,coin,action,quantity,price_usd,fee_usd\n\
        2021-01-01,bitcoin,buy,1,30000,\nbad,bitcoin,buy,1,30000,0\n2021-01-02,bitcoin,hodl,1,30000,0\n2021-01-03,bitcoin,buy,-1,30000,0\n";
    let out = import_rows(Vec::new(), text);
    assert_eq!((out.added, out.skipped), (1, 3));
    assert_eq!(out.invalid_lines, vec![3, 4, 5]);
    match &out.ledger[0] {
        Tx::Buy { fee, .. } => assert!(fee.is_zero()),
        _ => panic!(),
    }
}

#[test]
fn import_ignores_header_and_blank_lines() {
    let text = "2021-01-01,bitcoin,buy,1,30000,0\n\n   \r\n2021-01-02,ethereum,BUY,2,3000,1\r\n";
    let out = import_rows(Vec::new(), text);
    assert_eq!((out.added, out.skipped), (1, 0));
    match &out.ledger[0] {
        Tx::Buy { asset, .. } => assert_eq!(asset, "ethereum"),
        _ => panic!(),
    }
}

#[test]
fn parse_row_rejects_short_or_bad_rows() {
    assert!(parse_csv_row("2021-01-01,bitcoin,buy,1").is_none());
    assert!(parse_csv_row("2021-01-01,,buy,1,30000,0").is_none());
    assert!(parse_csv_row("2021-01-01,bitcoin,buy,0,30000,0").is_none());
    assert!(parse_csv_row("2021-01-01,bitcoin,buy,1,-3,0").is_none());
    assert!(parse_csv_row("2021-01-01,bitcoin,buy,1,3,-1").is_none());
    assert!(parse_csv_row("2021-13-01,bitcoin,buy,1,3,1").is_none());
    assert!(parse_csv_row(" 2021-01-01 , bitcoin , Sell , 1 , 3 , 1 , cold ").is_some());
}

#[test]
fn parse_row_reads_midnight_utc_and_amounts() {
    match parse_csv_row("2021-01-01,bitcoin,buy,0.5,30000,5,coinbase").unwrap() {
        Tx::Buy { timestamp, wallet, quantity, unit_price, fee, .. } => {
            assert_eq!(timestamp.secs, 1609459200);
            assert_eq!(timestamp.nanos, 0);
            assert_eq!(wallet, "coinbase");
            assert!(quantity.eq(&d("0.5")));
            assert!(unit_price.eq(&d("30000")));
            assert!(fee.eq(&d("5")));
        }
        _ => panic!(),
    }
}

#[test]
fn lines_follow_str_lines() {
    assert_eq!(lines_of("a\nb\r\nc"), vec!["a", "b", "c"]);
    assert_eq!(lines_of("a\n"), vec!["a"]);
    assert_eq!(lines_of("x\r"), vec!["x\r"]);
    assert!(lines_of("").is_empty());
    assert_eq!(lines_of("\n\n"), vec!["", ""]);
}

#[test]
fn row_without_fee_column_is_rejected() {
    assert!(parse_csv_row("2021-01-01,bitcoin,buy,1,30000").is_none());
    match parse_csv_row("2021-01-01,bitcoin,buy,1,30000,").unwrap() {
        Tx::Buy { fee, wallet, .. } => {
            assert!(fee.is_zero());
            assert_eq!(wallet, "default");
        }
        _ => panic!(),
    }
}
