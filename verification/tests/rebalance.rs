use crypto_price_tracker_v2::model::{AssetValue, Tx, Valuation};
use crypto_price_tracker_v2::rebalance::{
    allocation_rows, annotate_sell_gains, assets_for_targets, drift_pct, suggest, summarize, try_suggest,
    RebalanceSide, Strategy,
};
use crypto_price_tracker_v2::time::Timestamp;
use crypto_price_tracker_v2::Dec;

fn d(s: &str) -> Dec {
    let x = <rust_decimal::Decimal as std::str::FromStr>::from_str(s).unwrap();
    Dec::new(x.mantissa(), x.scale())
}

fn n(x: Dec) -> rust_decimal::Decimal {
    rust_decimal::Decimal::from_i128_with_scale(x.mantissa, x.scale)
}

fn midnight(s: &str) -> Timestamp {
    let t = chrono::NaiveDate::parse_from_str(s, "%Y-%m-%d").unwrap().and_hms_opt(0, 0, 0).unwrap().and_utc();
    Timestamp::new(t.timestamp(), 0)
}

fn row(asset: &str, cost: &str, value: &str, alloc: &str) -> AssetValue {
    AssetValue {
        asset: asset.to_string(),
        quantity: d("1"),
        cost_basis: d(cost),
        price: d(value),
        market_value: d(value),
        unrealized: d(&(n(d(value)) - n(d(cost))).to_string()),
        allocation: d(alloc),
    }
}

fn report() -> Valuation {
    Valuation {
        assets: vec![row("bitcoin", "5000", "7000", "0.7"), row("ethereum", "2000", "3000", "0.3")],
        total_cost: d("7000"),
        total_value: d("10000"),
        total_unrealized: d("3000"),
        total_return: d("0.428"),
        missing_prices: vec![],
    }
}

fn targets() -> Vec<(String, Dec)> {
    vec![("bitcoin".to_string(), d("0.6")), ("ethereum".to_string(), d("0.4"))]
}

#[test]
fn band_strategy_suggests_sell_btc_buy_eth() {
    let actions = suggest(&report(), &targets(), d("0.05"), d("25"), Strategy::Band);
    let btc = actions.iter().find(|a| a.asset == "bitcoin").unwrap();
    assert_eq!(btc.side, RebalanceSide::Sell);
    assert!(btc.amount_usd.eq(&d("1000")));
    let eth = actions.iter().find(|a| a.asset == "ethereum").unwrap();
    assert_eq!(eth.side, RebalanceSide::Buy);
    assert!(eth.amount_usd.eq(&d("1000")));
}

#[test]
fn band_strategy_skips_within_band() {
    let t = vec![("bitcoin".to_string(), d("0.7")), ("ethereum".to_string(), d("0.3"))];
    let actions = suggest(&report(), &t, d("0.05"), d("25"), Strategy::Band);
    assert!(actions.is_empty());
}

#[test]
fn min_trade_filters_tiny_drifts() {
    let actions = suggest(&report(), &targets(), d("0.0"), d("2000"), Strategy::Full);
    assert!(actions.is_empty());
}

#[test]
fn summary_reports_in_balance_when_no_actions() {
    let t = vec![("bitcoin".to_string(), d("0.7")), ("ethereum".to_string(), d("0.3"))];
    let actions = suggest(&report(), &t, d("0.05"), d("25"), Strategy::Band);
    let summary = summarize(&actions);
    assert!(summary.in_balance);
    assert!(summary.total_buys.is_zero() && summary.total_sells.is_zero());
}

#[test]
fn summary_totals_each_side() {
    let actions = suggest(&report(), &targets(), d("0.05"), d("25"), Strategy::Band);
    let s = summarize(&actions);
    assert!(!s.in_balance);
    assert!(s.total_buys.eq(&d("1000")));
    assert!(s.total_sells.eq(&d("1000")));
}

#[test]
fn unheld_target_is_bought_and_actions_are_ascending() {
    let t = vec![
        ("bitcoin".to_string(), d("0.5")),
        ("ethereum".to_string(), d("0.3")),
        ("solana".to_string(), d("0.2")),
    ];
    let actions = try_suggest(&report(), &t, d("0.05"), d("25"), Strategy::Full).unwrap();
    let names: Vec<&str> = actions.iter().map(|a| a.asset.as_str()).collect();
    assert_eq!(names, vec!["bitcoin", "solana"]);
    assert_eq!(actions[1].side, RebalanceSide::Buy);
    assert!(actions[1].amount_usd.eq(&d("2000")));
}

#[test]
fn zero_total_or_zero_weights_suggest_nothing() {
    let mut r = report();
    r.total_value = d("0");
    assert!(suggest(&r, &targets(), d("0.05"), d("25"), Strategy::Full).is_empty());
    let zero = vec![("bitcoin".to_string(), d("0"))];
    assert!(suggest(&report(), &zero, d("0.05"), d("25"), Strategy::Full).is_empty());
}

#[test]
fn sells_get_a_gain_estimate_buys_do_not() {
    let day = |s: &str| midnight(s);
    let txs = vec![Tx::Buy {
        timestamp: day("2021-01-01"),
        wallet: "w".to_string(),
        asset: "bitcoin".to_string(),
        quantity: d("1"),
        unit_price: d("5000"),
        fee: d("0"),
    }];
    let actions = suggest(&report(), &targets(), d("0.05"), d("25"), Strategy::Band);
    let out = annotate_sell_gains(actions, &report(), &txs, day("2024-01-01"));
    let btc = out.iter().find(|a| a.asset == "bitcoin").unwrap();
    assert!(n(btc.est_realized_gain.unwrap()) > n(d("0")));
    let eth = out.iter().find(|a| a.asset == "ethereum").unwrap();
    assert!(eth.est_realized_gain.is_none());
}

#[test]
fn target_universe_is_targets_and_held_assets() {
    let t = vec![("solana".to_string(), d("1"))];
    let r = report();
    assert_eq!(assets_for_targets(&t, Some(&r)), vec!["bitcoin", "ethereum", "solana"]);
    assert_eq!(assets_for_targets(&t, None), vec!["solana"]);
}

#[test]
fn allocation_rows_compare_current_and_target() {
    let t = vec![("bitcoin".to_string(), d("0.6")), ("solana".to_string(), d("0.4"))];
    let rows = allocation_rows(&report(), &t).unwrap();
    let names: Vec<&str> = rows.iter().map(|r| r.asset.as_str()).collect();
    assert_eq!(names, vec!["bitcoin", "ethereum", "solana"]);
    assert!(rows[0].current_pct.eq(&d("70")) && rows[0].target_pct.eq(&d("60")));
    assert!(rows[1].current_pct.eq(&d("30")) && rows[1].target_pct.is_zero());
    assert!(rows[2].current_pct.is_zero() && rows[2].target_pct.eq(&d("40")));
}

#[test]
fn drift_percentage_of_total() {
    assert!(drift_pct(d("1000"), d("10000")).unwrap().eq(&d("10")));
    assert!(drift_pct(d("-500"), d("10000")).unwrap().eq(&d("-5")));
    assert!(drift_pct(d("1000"), d("0")).unwrap().is_zero());
}

#[test]
fn scaling_every_weight_leaves_suggestions_unchanged() {
    let scaled = vec![("bitcoin".to_string(), d("6")), ("ethereum".to_string(), d("4"))];
    let a = suggest(&report(), &targets(), d("0.05"), d("25"), Strategy::Band);
    let b = suggest(&report(), &scaled, d("0.05"), d("25"), Strategy::Band);
    assert_eq!(a.len(), b.len());
    for (x, y) in a.iter().zip(b.iter()) {
        assert_eq!(x.asset, y.asset);
        assert_eq!(x.side, y.side);
        assert!(x.amount_usd.eq(&y.amount_usd));
        assert!(x.target_value.eq(&y.target_value));
    }
}
