//! The bracketed tax estimate: tax rules as plain values and the estimate
//! `coinbasis::tax::estimate` makes of a year's realized gains under them.

use vstd::prelude::*;

use crate::dec::{dec_abs, dec_le, dec_lt, dec_zero, decimal_add, decimal_mul, Dec};
use crate::engine::{dec_of, decimal_of};
use crate::model::{GainRow, GainsReport, Period};
use crate::time::Timestamp;

verus! {

/// One long-term bracket: `up_to` is the cumulative-gain ceiling (`None`
/// for the unbounded top bracket), `rate` the marginal rate within it.
#[derive(Clone, Copy, Debug)]
pub struct TaxBracket {
    pub up_to: Option<Dec>,
    pub rate: Dec,
}

/// Tax rules: a flat short-term rate, progressive long-term brackets
/// (ascending, unbounded last) and the holding period in days above which a
/// gain is long-term. The jurisdiction is a label only.
#[derive(Clone, Debug)]
pub struct TaxRules {
    pub jurisdiction: String,
    pub long_term_threshold_days: i64,
    pub short_term_rate: Dec,
    pub long_term_brackets: Vec<TaxBracket>,
}

/// The estimated tax on a year's gains.
#[derive(Clone, Copy, Debug)]
pub struct TaxEstimate {
    pub short_term_gain: Dec,
    pub long_term_gain: Dec,
    pub short_term_tax: Dec,
    pub long_term_tax: Dec,
    pub total_tax: Dec,
}

/// What the estimate reads of each row: disposal, acquisition, term, gain.
pub open spec fn tax_rows(rows: Seq<GainRow>) -> Seq<(Timestamp, Option<Timestamp>, Option<Period>, Dec)> {
    rows.map_values(|g: GainRow| (g.disposed_at, g.acquired_at, g.term, g.gain))
}

/// The brackets as ceiling and rate.
pub open spec fn tax_brackets(b: Seq<TaxBracket>) -> Seq<(Option<Dec>, Dec)> {
    b.map_values(|x: TaxBracket| (x.up_to, x.rate))
}

/// What `coinbasis::tax::estimate` gives for rows (disposal, acquisition,
/// term, gain), a long-term threshold in days, a short-term rate and the
/// long-term brackets (ceiling, rate): `None` when its `Decimal`
/// arithmetic or `TimeDelta::days` overflows (it then panics).
pub uninterp spec fn engine_tax_estimate(
    rows: Seq<(Timestamp, Option<Timestamp>, Option<Period>, Dec)>,
    threshold_days: i64,
    short_rate: Dec,
    brackets: Seq<(Option<Dec>, Dec)>,
) -> Option<TaxEstimate>;

/// The estimate of a report under rules, as `engine_tax_estimate` names it;
/// `None` where the engine panics.
pub open spec fn spec_tax_estimate(report: GainsReport, rules: TaxRules) -> Option<TaxEstimate> {
    engine_tax_estimate(
        tax_rows(report.rows@),
        rules.long_term_threshold_days,
        rules.short_term_rate,
        tax_brackets(rules.long_term_brackets@),
    )
}

/// Largest number of rows the estimate is run on.
pub const TAX_MAX_ROWS: usize = 1000000;

/// Largest number of brackets the estimate is run on.
pub const TAX_MAX_BRACKETS: usize = 1000;

/// Largest holding threshold, in days, either way (`chrono`'s
/// `TimeDelta::days` panics beyond about `1.07 * 10^11`).
pub const TAX_MAX_THRESHOLD_DAYS: i64 = 100000000000;

/// `10^18`, the largest magnitude of a row's gain the estimate is run on.
pub open spec fn gain_limit() -> Dec {
    Dec { mantissa: 1000000000000000000, scale: 0 }
}

/// `10^24`, the largest magnitude of a bracket ceiling.
pub open spec fn ceiling_limit() -> Dec {
    Dec { mantissa: 1000000000000000000000000, scale: 0 }
}

/// One, the largest magnitude of a rate.
pub open spec fn rate_limit() -> Dec {
    Dec { mantissa: 1, scale: 0 }
}

/// The estimate cannot overflow on these inputs: at most `TAX_MAX_ROWS`
/// rows, each gain at most `10^18` in magnitude (so a gain total stays below
/// `10^24`); rates at most one in magnitude; at most `TAX_MAX_BRACKETS`
/// brackets with ceilings at most `10^24` in magnitude (so a slice times a
/// rate stays below `2 * 10^24` and the tax below `2 * 10^27`); and a
/// threshold within `TAX_MAX_THRESHOLD_DAYS`.
pub open spec fn tax_inputs_in_range(report: GainsReport, rules: TaxRules) -> bool {
    &&& report.wf()
    &&& report.rows@.len() <= TAX_MAX_ROWS
    &&& forall|i: int| 0 <= i < report.rows@.len() ==> dec_le(dec_abs((#[trigger] report.rows@[i]).gain), gain_limit())
    &&& -TAX_MAX_THRESHOLD_DAYS <= rules.long_term_threshold_days <= TAX_MAX_THRESHOLD_DAYS
    &&& rules.short_term_rate.wf()
    &&& dec_le(dec_abs(rules.short_term_rate), rate_limit())
    &&& rules.long_term_brackets@.len() <= TAX_MAX_BRACKETS
    &&& forall|i: int| 0 <= i < rules.long_term_brackets@.len() ==> {
        let b = #[trigger] rules.long_term_brackets@[i];
        &&& b.rate.wf()
        &&& dec_le(dec_abs(b.rate), rate_limit())
        &&& (b.up_to matches Some(u) ==> u.wf() && dec_le(dec_abs(u), ceiling_limit()))
    }
}

/// A library term as the engine's.
#[verifier::external_body]
fn engine_term(p: Period) -> coinbasis::Term {
    match p {
        Period::Short => coinbasis::Term::Short,
        Period::Long => coinbasis::Term::Long,
    }
}

/// A library gain row as the engine's `RealizedGain`, field for field (its
/// instants, which `chrono` represents, through `DateTime::from_timestamp`).
#[verifier::external_body]
fn engine_gain_row(g: &GainRow) -> coinbasis::RealizedGain
    requires
        g.wf(),
{
    coinbasis::RealizedGain {
        asset: g.asset.clone(),
        wallet: g.wallet.clone(),
        disposed_at: chrono::DateTime::from_timestamp(g.disposed_at.secs, g.disposed_at.nanos).unwrap_or_default(),
        acquired_at: g.acquired_at.and_then(|t| chrono::DateTime::from_timestamp(t.secs, t.nanos)),
        quantity: decimal_of(g.quantity),
        proceeds: decimal_of(g.proceeds),
        cost_basis: decimal_of(g.cost_basis),
        gain: decimal_of(g.gain),
        term: g.term.map(engine_term),
    }
}

/// A library gains report as the engine's `CapitalGainsReport`.
#[verifier::external_body]
fn engine_report(r: &GainsReport) -> coinbasis::CapitalGainsReport
    requires
        r.wf(),
{
    coinbasis::CapitalGainsReport {
        tax_year: r.tax_year,
        rows: r.rows.iter().map(engine_gain_row).collect(),
        short_term_gain: decimal_of(r.short_term_gain),
        long_term_gain: decimal_of(r.long_term_gain),
        total_gain: decimal_of(r.total_gain),
    }
}

/// Library tax rules as the engine's `TaxConfig`, field for field.
#[verifier::external_body]
fn engine_rules(rules: &TaxRules) -> coinbasis::TaxConfig
    requires
        rules.short_term_rate.wf(),
        forall|i: int| 0 <= i < rules.long_term_brackets@.len() ==> {
            let b = #[trigger] rules.long_term_brackets@[i];
            b.rate.wf() && (b.up_to matches Some(u) ==> u.wf())
        },
{
    coinbasis::TaxConfig {
        jurisdiction: rules.jurisdiction.clone(),
        long_term_threshold_days: rules.long_term_threshold_days,
        short_term_rate: decimal_of(rules.short_term_rate),
        long_term_brackets: rules.long_term_brackets.iter().map(|b| coinbasis::TaxBracket {
            up_to: b.up_to.map(decimal_of),
            rate: decimal_of(b.rate),
        }).collect(),
    }
}

/// `coinbasis::tax::estimate` on a report under rules where it does not
/// panic: inputs within `tax_inputs_in_range`, where its `Decimal`
/// arithmetic and `TimeDelta::days` cannot overflow, or any inputs on which
/// it returns. Its source shows: a short-term tax of the rate times a positive net
/// short-term gain and zero otherwise, a long-term tax of zero when the
/// net long-term gain is not positive, and a total that is the sum of the
/// two taxes.
#[verifier::external_body]
fn engine_estimate(report: &GainsReport, rules: &TaxRules) -> (r: TaxEstimate)
    requires
        report.wf(),
        rules.short_term_rate.wf(),
        forall|i: int| 0 <= i < rules.long_term_brackets@.len() ==> {
            let b = #[trigger] rules.long_term_brackets@[i];
            b.rate.wf() && (b.up_to matches Some(u) ==> u.wf())
        },
        tax_inputs_in_range(*report, *rules) || spec_tax_estimate(*report, *rules) is Some,
    ensures
        engine_tax_estimate(
            tax_rows(report.rows@),
            rules.long_term_threshold_days,
            rules.short_term_rate,
            tax_brackets(rules.long_term_brackets@),
        ) == Some(r),
        r.short_term_gain.wf() && r.long_term_gain.wf() && r.short_term_tax.wf(),
        r.long_term_tax.wf() && r.total_tax.wf(),
        dec_lt(dec_zero(), r.short_term_gain) ==> decimal_mul(r.short_term_gain, rules.short_term_rate)
            == Some(r.short_term_tax),
        !dec_lt(dec_zero(), r.short_term_gain) ==> r.short_term_tax == dec_zero(),
        !dec_lt(dec_zero(), r.long_term_gain) ==> r.long_term_tax == dec_zero(),
        decimal_add(r.short_term_tax, r.long_term_tax) == Some(r.total_tax),
{
    let e = coinbasis::tax::estimate(&engine_report(report), &engine_rules(rules));
    TaxEstimate {
        short_term_gain: dec_of(e.short_term_gain),
        long_term_gain: dec_of(e.long_term_gain),
        short_term_tax: dec_of(e.short_term_tax),
        long_term_tax: dec_of(e.long_term_tax),
        total_tax: dec_of(e.total_tax),
    }
}

/// Whether the estimate's inputs are within range (see
/// `tax_inputs_in_range`); the report's rows are taken as well formed.
pub fn tax_inputs_within_range(report: &GainsReport, rules: &TaxRules) -> (r: bool)
    requires
        report.wf(),
    ensures
        r == tax_inputs_in_range(*report, *rules),
{
    if report.rows.len() > TAX_MAX_ROWS || rules.long_term_brackets.len() > TAX_MAX_BRACKETS {
        return false;
    }
    if rules.long_term_threshold_days < -TAX_MAX_THRESHOLD_DAYS
        || rules.long_term_threshold_days > TAX_MAX_THRESHOLD_DAYS {
        return false;
    }
    let gain_cap = Dec::new(1000000000000000000, 0);
    let ceiling_cap = Dec::new(1000000000000000000000000, 0);
    let one = Dec::new(1, 0);
    let mut i: usize = 0;
    while i < report.rows.len()
        invariant
            i <= report.rows@.len(),
            report.wf(),
            gain_cap == gain_limit(),
            forall|k: int| 0 <= k < i ==> dec_le(dec_abs((#[trigger] report.rows@[k]).gain), gain_limit()),
        decreases report.rows@.len() - i,
    {
        assert(report.rows@[i as int].wf());
        if !report.rows[i].gain.abs().le(&gain_cap) {
            return false;
        }
        i += 1;
    }
    if !rules.short_term_rate.in_bounds() {
        return false;
    }
    if !rules.short_term_rate.abs().le(&one) {
        return false;
    }
    let mut j: usize = 0;
    while j < rules.long_term_brackets.len()
        invariant
            j <= rules.long_term_brackets@.len(),
            one == rate_limit(),
            ceiling_cap == ceiling_limit(),
            forall|k: int| 0 <= k < j ==> {
                let b = #[trigger] rules.long_term_brackets@[k];
                &&& b.rate.wf()
                &&& dec_le(dec_abs(b.rate), rate_limit())
                &&& (b.up_to matches Some(u) ==> u.wf() && dec_le(dec_abs(u), ceiling_limit()))
            },
        decreases rules.long_term_brackets@.len() - j,
    {
        let b = rules.long_term_brackets[j];
        if !b.rate.in_bounds() || !b.rate.abs().le(&one) {
            return false;
        }
        match b.up_to {
            Some(u) => {
                if !u.in_bounds() || !u.abs().le(&ceiling_cap) {
                    return false;
                }
            },
            None => {},
        }
        j += 1;
    }
    true
}

/// The estimated tax on a report's gains under the rules: the engine's
/// estimate (`spec_tax_estimate`), whose total is the sum of the short- and
/// long-term taxes, with no tax on a gain that is not positive and the
/// short-term rate applied to a positive short-term gain. The engine
/// panics where its arithmetic overflows; `requires` leaves those inputs
/// out, and holds within `tax_inputs_in_range`.
pub fn estimate_tax(report: &GainsReport, rules: &TaxRules) -> (r: TaxEstimate)
    requires
        report.wf(),
        rules.short_term_rate.wf(),
        forall|i: int| 0 <= i < rules.long_term_brackets@.len() ==> {
            let b = #[trigger] rules.long_term_brackets@[i];
            b.rate.wf() && (b.up_to matches Some(u) ==> u.wf())
        },
        tax_inputs_in_range(*report, *rules) || spec_tax_estimate(*report, *rules) is Some,
    ensures
        spec_tax_estimate(*report, *rules) == Some(r),
        dec_lt(dec_zero(), r.short_term_gain) ==> decimal_mul(r.short_term_gain, rules.short_term_rate)
            == Some(r.short_term_tax),
        !dec_lt(dec_zero(), r.short_term_gain) ==> r.short_term_tax == dec_zero(),
        !dec_lt(dec_zero(), r.long_term_gain) ==> r.long_term_tax == dec_zero(),
        decimal_add(r.short_term_tax, r.long_term_tax) == Some(r.total_tax),
{
    engine_estimate(report, rules)
}

/// The estimate when the inputs are within `tax_inputs_in_range`, where
/// the engine cannot overflow (see `estimate_tax`), `None` otherwise.
pub fn try_estimate_tax(report: &GainsReport, rules: &TaxRules) -> (r: Option<TaxEstimate>)
    requires
        report.wf(),
    ensures
        r is Some == tax_inputs_in_range(*report, *rules),
        r matches Some(e) ==> spec_tax_estimate(*report, *rules) == Some(e),
{
    if tax_inputs_within_range(report, rules) {
        Some(estimate_tax(report, rules))
    } else {
        None
    }
}

/// `coinbasis::TaxConfig::default()` as library rules, with the given
/// jurisdiction label: the US preset of a 365-day threshold, a 35 percent
/// short-term rate and long-term brackets of 0 percent up to 47025,
/// 15 percent up to 518900 and 20 percent above.
#[verifier::external_body]
pub(crate) fn default_tax_rules(jurisdiction: String) -> (r: TaxRules)
    ensures
        r.jurisdiction == jurisdiction,
        r.long_term_threshold_days == 365,
        r.short_term_rate == (Dec { mantissa: 35, scale: 2 }),
        r.long_term_brackets@ == seq![
            TaxBracket { up_to: Some(Dec { mantissa: 47025, scale: 0 }), rate: Dec { mantissa: 0, scale: 0 } },
            TaxBracket { up_to: Some(Dec { mantissa: 518900, scale: 0 }), rate: Dec { mantissa: 15, scale: 2 } },
            TaxBracket { up_to: None, rate: Dec { mantissa: 20, scale: 2 } },
        ],
{
    let c = coinbasis::TaxConfig::default();
    TaxRules {
        jurisdiction,
        long_term_threshold_days: c.long_term_threshold_days,
        short_term_rate: dec_of(c.short_term_rate),
        long_term_brackets: c.long_term_brackets.iter().map(|b| TaxBracket {
            up_to: b.up_to.map(dec_of),
            rate: dec_of(b.rate),
        }).collect(),
    }
}

} // verus!
