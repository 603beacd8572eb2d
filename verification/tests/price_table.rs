use crypto_price_tracker_v2::config::Config;
use crypto_price_tracker_v2::controls::SortKey;
use crypto_price_tracker_v2::model::{AssetValue, Valuation};
use crypto_price_tracker_v2::price_table::{price_rows, row_totals, sort_rows};
use crypto_price_tracker_v2::prices::Quote;
use crypto_price_tracker_v2::Dec;

fn d(s: &str) -> Dec {
    let x = <rust_decimal::Decimal as std::str::FromStr>::from_str(s).unwrap();
    Dec::new(x.mantissa(), x.scale())
}

fn n(x: Dec) -> rust_decimal::Decimal {
    rust_decimal::Decimal::from_i128_with_scale(x.mantissa, x.scale)
}

fn row(asset: &str, qty: &str, cost: &str, price: &str, value: &str, alloc: &str) -> AssetValue {
    AssetValue {
        asset: asset.to_string(),
        quantity: d(qty),
        cost_basis: d(cost),
        price: d(price),
        market_value: d(value),
        unrealized: d(&(n(d(value)) - n(d(cost))).to_string()),
        allocation: d(alloc),
    }
}

fn report() -> Valuation {
    Valuation {
        assets: vec![
            row("bitcoin", "1", "30000", "50000", "50000", "0.5"),
            row("ethereum", "10", "20000", "3000", "30000", "0.3"),
            row("solana", "100", "0", "200", "20000", "0.2"),
        ],
        total_cost: d("50000"),
        total_value: d("100000"),
        total_unrealized: d("50000"),
        total_return: d("1"),
        missing_prices: vec![],
    }
}

fn quotes() -> Vec<(String, Quote)> {
    vec![(
        "bitcoin".to_string(),
        Quote { price: d("50000"), change_24h: d("2.5"), change_7d: Some(d("5.0")), market_cap: None, volume_24h: None, ath: None },
    )]
}

#[test]
fn rows_show_symbols_percentages_and_quotes() {
    let rows = price_rows(&report(), &quotes(), &Config::example()).unwrap();
    assert_eq!(rows.len(), 3);
    assert_eq!(rows[0].symbol, "BTC");
    assert!(n(d("66.66")) < n(rows[0].profit_pct) && n(rows[0].profit_pct) < n(d("66.67")));
    assert!(rows[0].alloc.eq(&d("50")));
    assert!(rows[0].change_24h.eq(&d("2.5")));
    assert!(rows[1].change_24h.is_zero());
    assert!(rows[1].change_7d.is_none());
    assert!(rows[2].profit_pct.is_zero());
}

#[test]
fn sorting_by_value_descending_and_symbol_ascending() {
    let rows = price_rows(&report(), &quotes(), &Config::example()).unwrap();
    let by_value = sort_rows(&rows, SortKey::Value, true);
    let names: Vec<&str> = by_value.iter().map(|r| r.asset.as_str()).collect();
    assert_eq!(names, vec!["bitcoin", "ethereum", "solana"]);
    let by_value_up = sort_rows(&rows, SortKey::Value, false);
    let names: Vec<&str> = by_value_up.iter().map(|r| r.asset.as_str()).collect();
    assert_eq!(names, vec!["solana", "ethereum", "bitcoin"]);
    let by_symbol = sort_rows(&rows, SortKey::Symbol, true);
    let names: Vec<&str> = by_symbol.iter().map(|r| r.symbol.as_str()).collect();
    assert_eq!(names, vec!["SOL", "ETH", "BTC"]);
}

#[test]
fn ties_keep_their_order() {
    let mut r = report();
    r.assets[2].market_value = d("50000.0");
    let rows = price_rows(&r, &quotes(), &Config::example()).unwrap();
    let sorted = sort_rows(&rows, SortKey::Value, true);
    let names: Vec<&str> = sorted.iter().map(|r| r.asset.as_str()).collect();
    assert_eq!(names, vec!["bitcoin", "solana", "ethereum"]);
}

#[test]
fn totals_sum_the_columns() {
    let rows = price_rows(&report(), &quotes(), &Config::example()).unwrap();
    let t = row_totals(&rows).unwrap();
    assert!(t.cost.eq(&d("50000")));
    assert!(t.value.eq(&d("100000")));
    assert!(t.profit.eq(&d("50000")));
    assert!(t.alloc.eq(&d("100")));
    assert!(row_totals(&Vec::new()).unwrap().value.is_zero());
}
