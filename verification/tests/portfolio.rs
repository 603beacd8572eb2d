use crypto_price_tracker_v2::dec::sum_checked;
use crypto_price_tracker_v2::error::AppError;
use crypto_price_tracker_v2::model::{IncomeKind, Method, Tx};
use crypto_price_tracker_v2::portfolio::{estimate_sell_gain, sell_wallet, PortfolioModel};
use crypto_price_tracker_v2::time::Timestamp;
use crypto_price_tracker_v2::Dec;

fn d(s: &str) -> Dec {
    let x = <rust_decimal::Decimal as std::str::FromStr>::from_str(s).unwrap();
    Dec::new(x.mantissa(), x.scale())
}

fn n(x: Dec) -> rust_decimal::Decimal {
    rust_decimal::Decimal::from_i128_with_scale(x.mantissa, x.scale)
}

fn midnight(s: &str) -> Timestamp {
    let t = chrono::NaiveDate::parse_from_str(s, "%Y-%m-%d").unwrap().and_hms_opt(0, 0, 0).unwrap().and_utc();
    Timestamp::new(t.timestamp(), 0)
}

fn day(s: &str) -> Timestamp {
    midnight(s)
}

fn buy(date: &str, qty: &str, price: &str) -> Tx {
    Tx::Buy {
        timestamp: day(date),
        wallet: "coinbase".to_string(),
        asset: "bitcoin".to_string(),
        quantity: d(qty),
        unit_price: d(price),
        fee: d("0"),
    }
}

fn ledger() -> Vec<Tx> {
    vec![
        buy("2021-01-01", "1", "30000"),
        buy("2022-01-01", "1", "40000"),
        Tx::Sell {
            timestamp: day("2023-06-01"),
            wallet: "coinbase".to_string(),
            asset: "bitcoin".to_string(),
            quantity: d("0.5"),
            unit_price: d("50000"),
            fee: d("0"),
        },
    ]
}

#[test]
fn builds_from_valid_ledger() {
    assert!(PortfolioModel::new(&ledger()).is_ok());
}

#[test]
fn rejects_non_positive_quantity() {
    let txs = vec![buy("2021-01-01", "0", "100")];
    match PortfolioModel::new(&txs) {
        Err(AppError::Portfolio(_)) => {}
        _ => panic!("expected the engine to reject the ledger"),
    }
}

#[test]
fn out_of_range_instant_is_reported() {
    let txs = vec![Tx::Buy {
        timestamp: Timestamp::new(i64::MAX, 0),
        wallet: "w".to_string(),
        asset: "bitcoin".to_string(),
        quantity: d("1"),
        unit_price: d("1"),
        fee: d("0"),
    }];
    match PortfolioModel::new(&txs) {
        Err(AppError::OutOfRange(_)) => {}
        _ => panic!("expected an out-of-range error"),
    }
}

#[test]
fn holdings_with_value_computes_current_and_unrealized() {
    let m = PortfolioModel::new(&ledger()).unwrap();
    let prices = vec![("bitcoin".to_string(), d("50000"))];
    let hv = m.holdings_with_value(Method::Fifo, &prices).unwrap();
    let qty: Vec<Dec> = hv.iter().map(|h| h.holding.quantity).collect();
    assert!(sum_checked(&qty).unwrap().eq(&d("1.5")));
    let h = &hv[0];
    assert_eq!(n(h.current_value), n(h.holding.quantity) * n(d("50000")));
    assert_eq!(n(h.unrealized), n(h.current_value) - n(h.holding.cost_basis));
}

#[test]
fn unpriced_holdings_are_valued_at_zero() {
    let m = PortfolioModel::new(&ledger()).unwrap();
    let hv = m.holdings_with_value(Method::Fifo, &Vec::new()).unwrap();
    assert!(hv.iter().all(|h| h.current_value.is_zero() && h.price.is_zero()));
}

#[test]
fn capital_gains_for_year_filters_rows() {
    let m = PortfolioModel::new(&ledger()).unwrap();
    let rep = m.capital_gains(Method::Fifo, 2023).unwrap();
    assert_eq!(rep.tax_year, 2023);
    assert!(!rep.rows.is_empty());
}

#[test]
fn realized_gains_follow_the_method() {
    let m = PortfolioModel::new(&ledger()).unwrap();
    let fifo = m.realized_gains(Method::Fifo).unwrap();
    let hifo = m.realized_gains(Method::Hifo).unwrap();
    assert_eq!(fifo.len(), 1);
    assert!(fifo[0].gain.eq(&d("10000")));
    assert!(hifo[0].gain.eq(&d("5000")));
    assert!(m.realized_gains(Method::SpecificId).is_err());
}

#[test]
fn valuation_totals() {
    let m = PortfolioModel::new(&ledger()).unwrap();
    let prices = vec![("bitcoin".to_string(), d("50000"))];
    let v = m.valuation(Method::Fifo, &prices).unwrap();
    assert!(v.total_value.eq(&d("75000")));
    assert!(v.total_cost.eq(&d("55000")));
    assert!(v.total_unrealized.eq(&d("20000")));
    assert_eq!(m.transactions().len(), 3);
}

#[test]
fn estimate_sell_gain_is_positive_for_appreciated_asset() {
    let txs = ledger();
    let gain = estimate_sell_gain(&txs, "bitcoin", d("10000"), d("50000"), day("2024-01-01")).unwrap();
    assert!(n(gain) > n(d("0")));
    assert!(gain.eq(&d("2000")));
}

#[test]
fn estimate_sell_gain_is_zero_without_price_or_amount() {
    let txs = ledger();
    let now = day("2024-01-01");
    assert!(estimate_sell_gain(&txs, "bitcoin", d("10000"), d("0"), now).unwrap().is_zero());
    assert!(estimate_sell_gain(&txs, "bitcoin", d("-5"), d("50000"), now).unwrap().is_zero());
}

#[test]
fn sell_wallet_is_first_buy_wallet() {
    let txs = ledger();
    assert_eq!(sell_wallet(&txs, &"bitcoin".to_string()), "coinbase");
    assert_eq!(sell_wallet(&txs, &"ethereum".to_string()), "estimate");
}

#[test]
fn income_statement_counts_the_year_only() {
    let mut txs = ledger();
    txs.push(Tx::Income {
        timestamp: day("2023-03-01"),
        wallet: "kraken".to_string(),
        asset: "ethereum".to_string(),
        quantity: d("1"),
        value: d("1800"),
        source: IncomeKind::Staking,
    });
    let m = PortfolioModel::new(&txs).unwrap();
    let y2023 = m.income(2023);
    assert_eq!(y2023.tax_year, 2023);
    assert_eq!(y2023.events.len(), 1);
    assert!(y2023.total_income.eq(&d("1800")));
    assert!(m.income(2022).total_income.is_zero());
}

#[test]
fn capital_gains_totals_for_the_year() {
    let m = PortfolioModel::new(&ledger()).unwrap();
    let rep = m.capital_gains(Method::Fifo, 2023).unwrap();
    assert!(rep.total_gain.eq(&d("10000")));
    assert!(rep.long_term_gain.eq(&d("10000")));
    assert!(m.capital_gains(Method::Fifo, 2022).unwrap().rows.is_empty());
}

#[test]
fn large_and_tiny_amounts_are_left_to_the_engine() {
    let dust = Tx::Buy {
        timestamp: day("2021-02-01"),
        wallet: "coinbase".to_string(),
        asset: "dust".to_string(),
        quantity: d("0.0000000000000000000001"),
        unit_price: d("1"),
        fee: d("0"),
    };
    let txs = vec![buy("2021-01-01", "2000000000", "0.00001"), dust];
    let m = PortfolioModel::new(&txs).unwrap();
    let hs = m.holdings(Method::Fifo).unwrap();
    assert_eq!(hs.len(), 2);
    let gain = estimate_sell_gain(&txs, "bitcoin", d("100"), d("0.00002"), day("2024-01-01")).unwrap();
    assert!(gain.eq(&d("50")));
}

#[test]
fn estimate_fails_when_the_sale_is_rejected() {
    let err = estimate_sell_gain(&ledger(), "bitcoin", d("100"), d("-5"), day("2024-01-01"));
    assert!(err.is_err());
}

#[test]
fn valuation_values_at_the_given_prices() {
    let m = PortfolioModel::new(&ledger()).unwrap();
    let good = vec![("bitcoin".to_string(), d("50000"))];
    let v = m.valuation(Method::Fifo, &good).unwrap();
    assert!(v.total_value.eq(&d("75000")));
    let negative = vec![("bitcoin".to_string(), d("-1"))];
    let w = m.valuation(Method::Fifo, &negative).unwrap();
    assert!(w.total_value.eq(&d("-1.5")));
}
