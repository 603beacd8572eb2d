use crypto_price_tracker_v2::export::{capital_gains_csv, holdings_csv};
use crypto_price_tracker_v2::model::{GainRow, Period, Position};
use crypto_price_tracker_v2::time::Timestamp;
use crypto_price_tracker_v2::Dec;

fn d(s: &str) -> Dec {
    let x = <rust_decimal::Decimal as std::str::FromStr>::from_str(s).unwrap();
    Dec::new(x.mantissa(), x.scale())
}

fn n(x: Dec) -> rust_decimal::Decimal {
    rust_decimal::Decimal::from_i128_with_scale(x.mantissa, x.scale)
}

fn midnight(s: &str) -> Timestamp {
    let t = chrono::NaiveDate::parse_from_str(s, "%Y-%m-%d").unwrap().and_hms_opt(0, 0, 0).unwrap().and_utc();
    Timestamp::new(t.timestamp(), 0)
}

#[test]
fn capital_gains_csv_has_header_and_row() {
    let rows = vec![GainRow {
        asset: "bitcoin".to_string(),
        wallet: "coinbase".to_string(),
        disposed_at: midnight("2023-06-01"),
        acquired_at: Some(midnight("2021-01-01")),
        quantity: d("0.5"),
        proceeds: d("25000"),
        cost_basis: d("15000"),
        gain: d("10000"),
        term: Some(Period::Long),
    }];
    let text = capital_gains_csv(&rows);
    assert!(text.starts_with("asset,wallet,acquired,disposed,quantity,proceeds,cost_basis,gain,term"));
    assert!(text.contains("bitcoin"));
    assert!(text.contains("Long"));
    assert_eq!(
        text,
        "asset,wallet,acquired,disposed,quantity,proceeds,cost_basis,gain,term\n\
         bitcoin,coinbase,2021-01-01T00:00:00+00:00,2023-06-01T00:00:00+00:00,0.5,25000,15000,10000,Long\n"
    );
}

#[test]
fn unknown_acquisition_and_term_are_blank() {
    let rows = vec![GainRow {
        asset: "eth".to_string(),
        wallet: "w".to_string(),
        disposed_at: midnight("2023-06-01"),
        acquired_at: None,
        quantity: d("1"),
        proceeds: d("10"),
        cost_basis: d("0"),
        gain: d("10"),
        term: None,
    }];
    let text = capital_gains_csv(&rows);
    assert!(text.ends_with("eth,w,,2023-06-01T00:00:00+00:00,1,10,0,10,\n"));
}

#[test]
fn holdings_csv_has_header() {
    let holdings = vec![Position {
        asset: "bitcoin".to_string(),
        wallet: "coinbase".to_string(),
        quantity: d("1"),
        cost_basis: d("30000"),
        average_cost: d("30000"),
    }];
    let text = holdings_csv(&holdings);
    assert!(text.starts_with("asset,wallet,quantity,cost_basis,average_cost\n"));
    assert_eq!(text, "asset,wallet,quantity,cost_basis,average_cost\nbitcoin,coinbase,1,30000,30000\n");
    assert_eq!(holdings_csv(&Vec::new()), "asset,wallet,quantity,cost_basis,average_cost\n");
}
