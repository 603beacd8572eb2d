use crypto_price_tracker_v2::config::Config;
use crypto_price_tracker_v2::model::{GainRow, GainsReport, Period};
use crypto_price_tracker_v2::tax::{estimate_tax, try_estimate_tax, TaxBracket, TaxRules};
use crypto_price_tracker_v2::time::Timestamp;
use crypto_price_tracker_v2::Dec;

fn d(s: &str) -> Dec {
    let x = <rust_decimal::Decimal as std::str::FromStr>::from_str(s).unwrap();
    Dec::new(x.mantissa(), x.scale())
}

fn midnight(s: &str) -> Timestamp {
    let t = chrono::NaiveDate::parse_from_str(s, "%Y-%m-%d").unwrap().and_hms_opt(0, 0, 0).unwrap().and_utc();
    Timestamp::new(t.timestamp(), 0)
}

fn row(acquired: &str, gain: &str) -> GainRow {
    GainRow {
        asset: "bitcoin".to_string(),
        wallet: "w".to_string(),
        disposed_at: midnight("2024-06-01"),
        acquired_at: Some(midnight(acquired)),
        quantity: d("1"),
        proceeds: d("0"),
        cost_basis: d("0"),
        gain: d(gain),
        term: None,
    }
}

fn report(rows: Vec<GainRow>) -> GainsReport {
    GainsReport { tax_year: 2024, rows, short_term_gain: d("0"), long_term_gain: d("0"), total_gain: d("0") }
}

#[test]
fn long_term_gain_is_taxed_by_brackets() {
    let rules = Config::example().tax;
    let est = estimate_tax(&report(vec![row("2022-01-01", "100000")]), &rules);
    assert!(est.long_term_gain.eq(&d("100000")));
    assert!(est.short_term_tax.is_zero());
    assert!(est.long_term_tax.eq(&d("7946.25")));
    assert!(est.total_tax.eq(&d("7946.25")));
}

#[test]
fn short_term_gain_is_taxed_at_the_flat_rate_and_losses_are_not() {
    let rules = Config::example().tax;
    let est = estimate_tax(&report(vec![row("2024-01-01", "1000")]), &rules);
    assert!(est.short_term_gain.eq(&d("1000")));
    assert!(est.short_term_tax.eq(&d("350")));
    let loss = estimate_tax(&report(vec![row("2024-01-01", "-500"), row("2020-01-01", "-10")]), &rules);
    assert!(loss.total_tax.is_zero());
}

#[test]
fn estimate_outside_range_is_refused() {
    let rules = TaxRules {
        jurisdiction: "X".to_string(),
        long_term_threshold_days: 365,
        short_term_rate: d("2"),
        long_term_brackets: vec![TaxBracket { up_to: None, rate: d("0.1") }],
    };
    assert!(try_estimate_tax(&report(vec![row("2024-01-01", "1")]), &rules).is_none());
    let ok = TaxRules { short_term_rate: d("0.5"), ..rules };
    let est = try_estimate_tax(&report(vec![row("2024-01-01", "10")]), &ok).unwrap();
    assert!(est.short_term_tax.eq(&d("5")));
    assert_eq!(Config::example().tax.long_term_brackets.len(), 3);
}
