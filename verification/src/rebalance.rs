//! Rebalancing: per-asset drift against target weights and the trades that
//! would close it. Tax-aware sell-gain estimates are filled in by the caller
//! through `portfolio::estimate_sell_gain`.

use vstd::prelude::*;

use crate::dec::{
    checked_sum, dec_abs, dec_le, dec_lt, dec_min, dec_zero, decimal_div, decimal_mul,
    decimal_sub, sum_checked, Dec,
};
use crate::model::{AssetValue, Tx, Valuation};
use crate::portfolio::{estimate_runs, estimate_sell_gain, ledger_wf, spec_estimate};
use crate::time::Timestamp;
use crate::table::{amounts, amounts_of, entries_wf, entry_or_zero, has_key, lookup_or_zero};
use crate::text::{ascending, insert_ascending, lemma_lex_irreflexive, lex_lt, spells};

verus! {

/// Which assets get a trade.
#[derive(Clone, Copy, Debug, PartialEq, Eq, Structural)]
pub enum Strategy {
    /// Only assets whose drift, as a fraction of the total, exceeds the band.
    Band,
    /// Every asset off target by at least the minimum trade.
    Full,
}

/// Direction of a suggested trade.
#[derive(Clone, Copy, Debug, PartialEq, Eq, Structural)]
pub enum RebalanceSide {
    Buy,
    Sell,
}

/// One suggested trade.
#[derive(Clone, Debug)]
pub struct RebalanceAction {
    pub asset: String,
    pub current_value: Dec,
    pub target_value: Dec,
    /// `current_value - target_value`; positive means overweight.
    pub drift: Dec,
    pub side: RebalanceSide,
    pub amount_usd: Dec,
    /// Estimated realized gain if this sell executes (HIFO); filled by the caller.
    pub est_realized_gain: Option<Dec>,
}

/// Totals of a list of suggested trades.
#[derive(Clone, Debug)]
pub struct RebalanceSummary {
    pub total_buys: Dec,
    pub total_sells: Dec,
    pub in_balance: bool,
}

/// A trade's numbers: current value, target value, drift, side, amount.
pub type TradeFigures = (Dec, Dec, Dec, RebalanceSide, Dec);

/// Market value of `key` in the valuation: the last row for it, as a map
/// filled row by row keeps it.
pub open spec fn market_value_of(assets: Seq<AssetValue>, key: Seq<char>) -> Option<Dec>
    decreases assets.len(),
{
    if assets.len() == 0 {
        None
    } else if assets.last().asset@ == key {
        Some(assets.last().market_value)
    } else {
        market_value_of(assets.drop_last(), key)
    }
}

/// Some valuation row is for `key`.
pub open spec fn held(assets: Seq<AssetValue>, key: Seq<char>) -> bool {
    exists|i: int| 0 <= i < assets.len() && (#[trigger] assets[i]).asset@ == key
}

/// The assets considered: those valued and those with a target.
pub open spec fn in_scope(
    assets: Seq<AssetValue>,
    targets: Seq<(String, Dec)>,
    key: Seq<char>,
) -> bool {
    held(assets, key) || has_key(targets, key)
}

/// The trade for one asset: `None` when the arithmetic overflows,
/// `Some(None)` when no trade is due, `Some(Some(plan))` otherwise.
///
/// weight = target / weight_sum; target_value = total * weight;
/// drift = current - target_value; the band test uses |drift / total|;
/// an overweight asset is sold (capped at its current value), an
/// underweight one bought; trades below `min_trade` are dropped.
pub open spec fn spec_plan(
    key: Seq<char>,
    assets: Seq<AssetValue>,
    targets: Seq<(String, Dec)>,
    total: Dec,
    weight_sum: Dec,
    band: Dec,
    min_trade: Dec,
    strategy: Strategy,
) -> Option<Option<TradeFigures>> {
    let cur = match market_value_of(assets, key) {
        Some(v) => v,
        None => dec_zero(),
    };
    match decimal_div(entry_or_zero(targets, key), weight_sum) {
        None => None,
        Some(weight) => match decimal_mul(total, weight) {
            None => None,
            Some(tv) => match decimal_sub(cur, tv) {
                None => None,
                Some(drift) => match decimal_div(drift, total) {
                    None => None,
                    Some(df) => if strategy == Strategy::Band && dec_le(dec_abs(df), band) {
                        Some(None)
                    } else if dec_lt(dec_abs(drift), min_trade) {
                        Some(None)
                    } else {
                        let sell = dec_lt(dec_zero(), drift);
                        let amt = if sell {
                            dec_min(dec_abs(drift), cur)
                        } else {
                            dec_abs(drift)
                        };
                        if dec_lt(amt, min_trade) {
                            Some(None)
                        } else {
                            Some(
                                Some(
                                    (
                                        cur,
                                        tv,
                                        drift,
                                        if sell {
                                            RebalanceSide::Sell
                                        } else {
                                            RebalanceSide::Buy
                                        },
                                        amt,
                                    ),
                                ),
                            )
                        }
                    },
                },
            },
        },
    }
}

/// A trade is due.
pub open spec fn is_trade(p: Option<Option<TradeFigures>>) -> bool {
    p matches Some(Some(_))
}

/// The numbers an action carries.
pub open spec fn plan_of(a: RebalanceAction) -> TradeFigures {
    (a.current_value, a.target_value, a.drift, a.side, a.amount_usd)
}

/// Inputs within the decimal bounds.
pub open spec fn suggest_inputs_wf(
    report: Valuation,
    targets: Seq<(String, Dec)>,
    band: Dec,
    min_trade: Dec,
) -> bool {
    report.wf() && entries_wf(targets) && band.wf() && min_trade.wf()
}

/// The computation `suggest` performs stays within range: the weights sum
/// and, when both totals are nonzero, every asset's trade.
pub open spec fn suggest_fits(
    report: Valuation,
    targets: Seq<(String, Dec)>,
    band: Dec,
    min_trade: Dec,
    strategy: Strategy,
) -> bool {
    report.total_value.mantissa == 0 || match checked_sum(amounts(targets)) {
        None => false,
        Some(ws) => ws.mantissa == 0 || forall|k: Seq<char>|
            #![trigger in_scope(report.assets@, targets, k)]
            in_scope(report.assets@, targets, k) ==> spec_plan(
                k,
                report.assets@,
                targets,
                report.total_value,
                ws,
                band,
                min_trade,
                strategy,
            ) is Some,
    }
}

/// What `suggest` returns: nothing when the total or the weights sum to
/// zero; otherwise exactly one action per asset in scope that has a trade,
/// carrying that trade's numbers, in ascending asset order.
pub open spec fn suggest_result(
    v: Seq<RebalanceAction>,
    report: Valuation,
    targets: Seq<(String, Dec)>,
    band: Dec,
    min_trade: Dec,
    strategy: Strategy,
) -> bool {
    let total = report.total_value;
    if total.mantissa == 0 {
        v.len() == 0
    } else {
        let ws = checked_sum(amounts(targets)).unwrap();
        if ws.mantissa == 0 {
            v.len() == 0
        } else {
            &&& forall|i: int|
                0 <= i < v.len() ==> {
                    &&& in_scope(report.assets@, targets, (#[trigger] v[i]).asset@)
                    &&& spec_plan(
                        v[i].asset@,
                        report.assets@,
                        targets,
                        total,
                        ws,
                        band,
                        min_trade,
                        strategy,
                    ) == Some(Some(plan_of(v[i])))
                    &&& v[i].est_realized_gain is None
                }
            &&& forall|i: int, j: int|
                0 <= i < j < v.len() ==> lex_lt((#[trigger] v[i]).asset@, (#[trigger] v[j]).asset@)
            &&& forall|k: Seq<char>|
                #![trigger spec_plan(k, report.assets@, targets, total, ws, band, min_trade, strategy)]
                in_scope(report.assets@, targets, k) && spec_plan(
                    k,
                    report.assets@,
                    targets,
                    total,
                    ws,
                    band,
                    min_trade,
                    strategy,
                ) is Some && is_trade(spec_plan(
                    k,
                    report.assets@,
                    targets,
                    total,
                    ws,
                    band,
                    min_trade,
                    strategy,
                )) ==> exists|i: int|
                    0 <= i < v.len() && (#[trigger] v[i]).asset@ == k
        }
    }
}

/// Market value of `key` in the valuation, or zero.
fn market_value_lookup(assets: &Vec<AssetValue>, key: &String) -> (r: Dec)
    requires
        forall|i: int| 0 <= i < assets@.len() ==> #[trigger] assets@[i].wf(),
    ensures
        r == match market_value_of(assets@, key@) {
            Some(v) => v,
            None => dec_zero(),
        },
        r.wf(),
{
    let mut i = assets.len();
    assert(assets@.take(i as int) =~= assets@);
    while i > 0
        invariant
            i <= assets.len(),
            forall|j: int| 0 <= j < assets@.len() ==> #[trigger] assets@[j].wf(),
            market_value_of(assets@, key@) == market_value_of(assets@.take(i as int), key@),
        decreases i,
    {
        let ghost pre = assets@.take(i as int);
        assert(pre.last() == assets@[i - 1]);
        assert(pre.drop_last() =~= assets@.take(i - 1));
        if assets[i - 1].asset == *key {
            assert(assets@[i - 1].wf());
            return assets[i - 1].market_value;
        }
        i -= 1;
    }
    Dec::zero()
}

/// The assets in scope, ascending.
fn scope_keys(assets: &Vec<AssetValue>, targets: &Vec<(String, Dec)>) -> (r: Vec<String>)
    ensures
        ascending(r@),
        forall|s: Seq<char>| #[trigger] spells(r@, s) <==> in_scope(assets@, targets@, s),
{
    let mut keys: Vec<String> = Vec::new();
    let mut i: usize = 0;
    while i < assets.len()
        invariant
            i <= assets@.len(),
            ascending(keys@),
            forall|s: Seq<char>| #[trigger]
                spells(keys@, s) <==> exists|j: int|
                    0 <= j < i && (#[trigger] assets@[j]).asset@ == s,
        decreases assets@.len() - i,
    {
        insert_ascending(&mut keys, assets[i].asset.clone());
        i += 1;
    }
    let mut t: usize = 0;
    while t < targets.len()
        invariant
            t <= targets@.len(),
            ascending(keys@),
            forall|s: Seq<char>| #[trigger]
                spells(keys@, s) <==> (held(assets@, s) || exists|j: int|
                    0 <= j < t && (#[trigger] targets@[j]).0@ == s),
        decreases targets@.len() - t,
    {
        insert_ascending(&mut keys, targets[t].0.clone());
        t += 1;
    }
    keys
}

/// The trade for one asset, as `spec_plan` describes it.
fn plan_for(
    key: &String,
    report: &Valuation,
    targets: &Vec<(String, Dec)>,
    weight_sum: Dec,
    band: Dec,
    min_trade: Dec,
    strategy: Strategy,
) -> (r: Option<Option<RebalanceAction>>)
    requires
        suggest_inputs_wf(*report, targets@, band, min_trade),
        weight_sum.wf(),
    ensures
        match spec_plan(
            key@,
            report.assets@,
            targets@,
            report.total_value,
            weight_sum,
            band,
            min_trade,
            strategy,
        ) {
            None => r is None,
            Some(None) => r matches Some(None),
            Some(Some(p)) => r matches Some(Some(a)) && a.asset@ == key@ && plan_of(a) == p
                && a.est_realized_gain is None,
        },
        r matches Some(Some(a)) ==> a.current_value.wf() && a.amount_usd.wf(),
{
    let total = report.total_value;
    let cur = market_value_lookup(&report.assets, key);
    let raw = lookup_or_zero(targets, key);
    let weight = raw.checked_div(&weight_sum)?;
    let tv = total.checked_mul(&weight)?;
    let drift = cur.checked_sub(&tv)?;
    let df = drift.checked_div(&total)?;
    let zero = Dec::zero();
    if strategy == Strategy::Band && df.abs().le(&band) {
        return Some(None);
    }
    let amount = drift.abs();
    if amount.lt(&min_trade) {
        return Some(None);
    }
    let sell = zero.lt(&drift);
    let amt = if sell {
        amount.min(&cur)
    } else {
        amount
    };
    if amt.lt(&min_trade) {
        return Some(None);
    }
    Some(
        Some(
            RebalanceAction {
                asset: key.clone(),
                current_value: cur,
                target_value: tv,
                drift,
                side: if sell {
                    RebalanceSide::Sell
                } else {
                    RebalanceSide::Buy
                },
                amount_usd: amt,
                est_realized_gain: None,
            },
        ),
    )
}

/// Suggested rebalancing trades, or `None` when the arithmetic overflows
/// (where the unchecked computation would stop). Targets are weights and
/// need not be normalized: each is divided by their sum.
pub fn try_suggest(
    report: &Valuation,
    targets: &Vec<(String, Dec)>,
    band: Dec,
    min_trade_usd: Dec,
    strategy: Strategy,
) -> (r: Option<Vec<RebalanceAction>>)
    requires
        suggest_inputs_wf(*report, targets@, band, min_trade_usd),
    ensures
        r is Some == suggest_fits(*report, targets@, band, min_trade_usd, strategy),
        r matches Some(v) ==> suggest_result(v@, *report, targets@, band, min_trade_usd, strategy),
        r matches Some(v) ==> forall|i: int| 0 <= i < v@.len() ==> (#[trigger] v@[i]).current_value.wf()
            && v@[i].amount_usd.wf(),
{
    let total = report.total_value;
    if total.is_zero() {
        return Some(Vec::new());
    }
    let weights = amounts_of(targets);
    let weight_sum = sum_checked(&weights)?;
    if weight_sum.is_zero() {
        return Some(Vec::new());
    }
    let keys = scope_keys(&report.assets, targets);
    let ghost fits_all = forall|k: Seq<char>|
        #![trigger in_scope(report.assets@, targets@, k)]
        in_scope(report.assets@, targets@, k) ==> spec_plan(
            k,
            report.assets@,
            targets@,
            total,
            weight_sum,
            band,
            min_trade_usd,
            strategy,
        ) is Some;
    let mut actions: Vec<RebalanceAction> = Vec::new();
    let ghost mut origin: Seq<int> = Seq::empty();
    let mut i: usize = 0;
    while i < keys.len()
        invariant
            i <= keys@.len(),
            suggest_inputs_wf(*report, targets@, band, min_trade_usd),
            weight_sum.wf(),
            total == report.total_value,
            total.mantissa != 0,
            weight_sum.mantissa != 0,
            checked_sum(amounts(targets@)) == Some(weight_sum),
            ascending(keys@),
            forall|s: Seq<char>| #[trigger] spells(keys@, s) <==> in_scope(report.assets@, targets@, s),
            forall|j: int|
                0 <= j < i ==> spec_plan(
                    #[trigger] keys@[j]@,
                    report.assets@,
                    targets@,
                    total,
                    weight_sum,
                    band,
                    min_trade_usd,
                    strategy,
                ) is Some,
            origin.len() == actions@.len(),
            forall|t: int|
                0 <= t < origin.len() ==> 0 <= #[trigger] origin[t] < i && keys@[origin[t]]@
                    == actions@[t].asset@,
            forall|t: int, u: int| 0 <= t < u < origin.len() ==> #[trigger] origin[t] < #[trigger] origin[u],
            forall|t: int|
                0 <= t < actions@.len() ==> {
                    &&& spec_plan(
                        (#[trigger] actions@[t]).asset@,
                        report.assets@,
                        targets@,
                        total,
                        weight_sum,
                        band,
                        min_trade_usd,
                        strategy,
                    ) == Some(Some(plan_of(actions@[t])))
                    &&& actions@[t].est_realized_gain is None
                    &&& actions@[t].current_value.wf()
                    &&& actions@[t].amount_usd.wf()
                },
            forall|j: int|
                0 <= j < i && is_trade(spec_plan(
                    #[trigger] keys@[j]@,
                    report.assets@,
                    targets@,
                    total,
                    weight_sum,
                    band,
                    min_trade_usd,
                    strategy,
                )) ==> exists|t: int|
                    0 <= t < actions@.len() && (#[trigger] actions@[t]).asset@ == keys@[j]@,
        decreases keys@.len() - i,
    {
        match plan_for(&keys[i], report, targets, weight_sum, band, min_trade_usd, strategy) {
            None => {
                proof {
                    let k = keys@[i as int]@;
                    assert(spells(keys@, k));
                    assert(in_scope(report.assets@, targets@, k));
                    assert(!suggest_fits(*report, targets@, band, min_trade_usd, strategy));
                }
                return None;
            },
            Some(None) => {},
            Some(Some(a)) => {
                let ghost before = actions@;
                actions.push(a);
                proof {
                    origin = origin.push(i as int);
                    let last = actions@.len() - 1;
                    assert(actions@[last].asset@ == keys@[i as int]@);
                    assert forall|j: int|
                        0 <= j < i && is_trade(
                            spec_plan(
                                #[trigger] keys@[j]@,
                                report.assets@,
                                targets@,
                                total,
                                weight_sum,
                                band,
                                min_trade_usd,
                                strategy,
                            ),
                        ) implies exists|t: int|
                        0 <= t < actions@.len() && (#[trigger] actions@[t]).asset@ == keys@[j]@ by {
                        let t = choose|t: int|
                            0 <= t < before.len() && (#[trigger] before[t]).asset@ == keys@[j]@;
                        assert(actions@[t] == before[t]);
                    }
                }
            },
        }
        i += 1;
    }
    proof {
        assert forall|k: Seq<char>|
            #![trigger in_scope(report.assets@, targets@, k)]
            in_scope(report.assets@, targets@, k) implies spec_plan(
            k,
            report.assets@,
            targets@,
            total,
            weight_sum,
            band,
            min_trade_usd,
            strategy,
        ) is Some by {
            assert(spells(keys@, k));
            let j = choose|j: int| 0 <= j < keys@.len() && (#[trigger] keys@[j])@ == k;
            assert(spec_plan(keys@[j]@, report.assets@, targets@, total, weight_sum, band, min_trade_usd, strategy) is Some);
        }
        assert forall|t: int, u: int| 0 <= t < u < actions@.len() implies lex_lt(
            (#[trigger] actions@[t]).asset@,
            (#[trigger] actions@[u]).asset@,
        ) by {
            assert(origin[t] < origin[u]);
            assert(keys@[origin[t]]@ == actions@[t].asset@);
            assert(keys@[origin[u]]@ == actions@[u].asset@);
        }
        assert forall|t: int| 0 <= t < actions@.len() implies in_scope(
            report.assets@,
            targets@,
            (#[trigger] actions@[t]).asset@,
        ) by {
            assert(spells(keys@, keys@[origin[t]]@));
        }
        assert forall|k: Seq<char>|
            #![trigger spec_plan(k, report.assets@, targets@, total, weight_sum, band, min_trade_usd, strategy)]
            in_scope(report.assets@, targets@, k) && spec_plan(
                k,
                report.assets@,
                targets@,
                total,
                weight_sum,
                band,
                min_trade_usd,
                strategy,
            ) is Some && is_trade(spec_plan(
                k,
                report.assets@,
                targets@,
                total,
                weight_sum,
                band,
                min_trade_usd,
                strategy,
            )) implies exists|t: int|
                0 <= t < actions@.len() && (#[trigger] actions@[t]).asset@ == k by {
            assert(spells(keys@, k));
            let j = choose|j: int| 0 <= j < keys@.len() && (#[trigger] keys@[j])@ == k;
            assert(is_trade(spec_plan(keys@[j]@, report.assets@, targets@, total, weight_sum, band, min_trade_usd, strategy)));
        }
    }
    Some(actions)
}

/// Suggested rebalancing trades. `targets` are weights (need not be
/// normalized; each is divided by their sum). No trade when the total value
/// or the weights sum to zero; otherwise one trade per asset (valued or
/// targeted) whose drift passes the band (for `Band`) and whose amount is at
/// least `min_trade_usd`, in ascending asset order; sells never exceed the
/// asset's current value.
pub fn suggest(
    report: &Valuation,
    targets: &Vec<(String, Dec)>,
    band: Dec,
    min_trade_usd: Dec,
    strategy: Strategy,
) -> (r: Vec<RebalanceAction>)
    requires
        suggest_inputs_wf(*report, targets@, band, min_trade_usd),
        suggest_fits(*report, targets@, band, min_trade_usd, strategy),
    ensures
        suggest_result(r@, *report, targets@, band, min_trade_usd, strategy),
{
    try_suggest(report, targets, band, min_trade_usd, strategy).unwrap()
}

/// The drift, as a fraction of the total, lies outside the band.
pub open spec fn outside_band(drift: Dec, total: Dec, band: Dec) -> bool {
    match decimal_div(drift, total) {
        Some(df) => !dec_le(dec_abs(df), band),
        None => false,
    }
}

/// Each trade `spec_plan` proposes is at least `min_trade`; a sell carries a
/// positive drift and is capped at the current value; a buy carries a
/// non-positive drift; under `Band` its drift fraction exceeds the band.
pub proof fn lemma_plan_properties(
    key: Seq<char>,
    assets: Seq<AssetValue>,
    targets: Seq<(String, Dec)>,
    total: Dec,
    weight_sum: Dec,
    band: Dec,
    min_trade: Dec,
    strategy: Strategy,
)
    ensures
        spec_plan(key, assets, targets, total, weight_sum, band, min_trade, strategy) matches Some(
            Some(p),
        ) ==> {
            &&& !dec_lt(p.4, min_trade)
            &&& (p.3 == RebalanceSide::Sell ==> dec_lt(dec_zero(), p.2) && dec_le(p.4, p.0))
            &&& (p.3 == RebalanceSide::Buy ==> !dec_lt(dec_zero(), p.2) && p.4 == dec_abs(p.2))
            &&& (strategy == Strategy::Band ==> outside_band(p.2, total, band))
        },
{
}

/// Laws of every suggested trade list: each trade is at least the minimum
/// trade; a sell is only for an overweight asset and never exceeds what is
/// held; a buy is for an asset at or under target, by the whole drift;
/// under `Band` each trade's drift fraction is outside the band; and no asset
/// appears twice.
pub proof fn rebalance_trade_laws(
    v: Seq<RebalanceAction>,
    report: Valuation,
    targets: Seq<(String, Dec)>,
    band: Dec,
    min_trade: Dec,
    strategy: Strategy,
)
    requires
        suggest_result(v, report, targets, band, min_trade, strategy),
    ensures
        forall|i: int|
            0 <= i < v.len() ==> {
                &&& !dec_lt((#[trigger] v[i]).amount_usd, min_trade)
                &&& (v[i].side == RebalanceSide::Sell ==> dec_lt(dec_zero(), v[i].drift) && dec_le(
                    v[i].amount_usd,
                    v[i].current_value,
                ))
                &&& (v[i].side == RebalanceSide::Buy ==> !dec_lt(dec_zero(), v[i].drift)
                    && v[i].amount_usd == dec_abs(v[i].drift))
                &&& (strategy == Strategy::Band ==> outside_band(v[i].drift, report.total_value, band))
            },
        forall|i: int, j: int| 0 <= i < j < v.len() ==> (#[trigger] v[i]).asset@ != (#[trigger] v[j]).asset@,
{
    if report.total_value.mantissa != 0 {
        let ws = checked_sum(amounts(targets)).unwrap();
        assert forall|i: int| 0 <= i < v.len() implies {
            &&& !dec_lt((#[trigger] v[i]).amount_usd, min_trade)
            &&& (v[i].side == RebalanceSide::Sell ==> dec_lt(dec_zero(), v[i].drift) && dec_le(
                v[i].amount_usd,
                v[i].current_value,
            ))
            &&& (v[i].side == RebalanceSide::Buy ==> !dec_lt(dec_zero(), v[i].drift)
                && v[i].amount_usd == dec_abs(v[i].drift))
            &&& (strategy == Strategy::Band ==> outside_band(v[i].drift, report.total_value, band))
        } by {
            lemma_plan_properties(
                v[i].asset@,
                report.assets@,
                targets,
                report.total_value,
                ws,
                band,
                min_trade,
                strategy,
            );
        }
        assert forall|i: int, j: int| 0 <= i < j < v.len() implies (#[trigger] v[i]).asset@ != (
        #[trigger] v[j]).asset@ by {
            lemma_lex_irreflexive(v[i].asset@);
        }
    }
}

/// Suggestions depend on the target weights only through which assets have
/// a target and each weight divided by the weights' sum. So scaling every
/// weight by the same factor, where the scaled weights divide out to the
/// same quotients, leaves what `suggest` returns unchanged: the same
/// trades are due, and the same lists meet its contract.
pub proof fn target_scaling_law(
    report: Valuation,
    t1: Seq<(String, Dec)>,
    t2: Seq<(String, Dec)>,
    band: Dec,
    min_trade: Dec,
    strategy: Strategy,
    v: Seq<RebalanceAction>,
)
    requires
        forall|k: Seq<char>| has_key(t1, k) <==> has_key(t2, k),
        checked_sum(amounts(t1)) is Some,
        checked_sum(amounts(t2)) is Some,
        (checked_sum(amounts(t1))->0.mantissa == 0) <==> (checked_sum(amounts(t2))->0.mantissa == 0),
        forall|k: Seq<char>|
            decimal_div(entry_or_zero(t1, k), checked_sum(amounts(t1))->0) == decimal_div(
                #[trigger] entry_or_zero(t2, k),
                checked_sum(amounts(t2))->0,
            ),
    ensures
        suggest_fits(report, t1, band, min_trade, strategy) == suggest_fits(
            report,
            t2,
            band,
            min_trade,
            strategy,
        ),
        suggest_result(v, report, t1, band, min_trade, strategy) == suggest_result(
            v,
            report,
            t2,
            band,
            min_trade,
            strategy,
        ),
{
    let w1 = checked_sum(amounts(t1))->0;
    let w2 = checked_sum(amounts(t2))->0;
    let a = report.assets@;
    let tot = report.total_value;
    assert forall|k: Seq<char>|
        spec_plan(k, a, t1, tot, w1, band, min_trade, strategy) == spec_plan(
            k,
            a,
            t2,
            tot,
            w2,
            band,
            min_trade,
            strategy,
        ) && in_scope(a, t1, k) == in_scope(a, t2, k) by {
        assert(decimal_div(entry_or_zero(t1, k), w1) == decimal_div(entry_or_zero(t2, k), w2));
    }
}

/// Amounts of the trades on one side, in order.
pub open spec fn side_amounts(v: Seq<RebalanceAction>, side: RebalanceSide) -> Seq<Dec>
    decreases v.len(),
{
    if v.len() == 0 {
        Seq::empty()
    } else if v.last().side == side {
        side_amounts(v.drop_last(), side).push(v.last().amount_usd)
    } else {
        side_amounts(v.drop_last(), side)
    }
}

/// The amounts on one side are exactly the amounts of the trades on that
/// side, in list order: the list kept to the trades whose side is `side`,
/// each taken by its amount. So a buy's amount never counts toward the
/// sells and a sell's never toward the buys.
pub proof fn side_amounts_law(v: Seq<RebalanceAction>, side: RebalanceSide)
    ensures
        side_amounts(v, side) == v.filter(|a: RebalanceAction| a.side == side).map_values(
            |a: RebalanceAction| a.amount_usd,
        ),
    decreases v.len(),
{
    reveal(Seq::filter);
    let pred = |a: RebalanceAction| a.side == side;
    let f = |a: RebalanceAction| a.amount_usd;
    if v.len() > 0 {
        side_amounts_law(v.drop_last(), side);
        let pre = v.drop_last().filter(pred);
        if pred(v.last()) {
            assert(pre.push(v.last()).map_values(f) =~= pre.map_values(f).push(v.last().amount_usd));
        }
    } else {
        assert(v.filter(pred).map_values(f) =~= Seq::<Dec>::empty());
    }
}

/// The amounts of a trade list are within the decimal bounds.
pub open spec fn actions_wf(v: Seq<RebalanceAction>) -> bool {
    forall|i: int| 0 <= i < v.len() ==> (#[trigger] v[i]).amount_usd.wf()
}

/// The sides' totals stay within range.
pub open spec fn summary_fits(v: Seq<RebalanceAction>) -> bool {
    checked_sum(side_amounts(v, RebalanceSide::Buy)) is Some && checked_sum(
        side_amounts(v, RebalanceSide::Sell),
    ) is Some
}

/// Amounts on one side, in order.
fn amounts_on(actions: &Vec<RebalanceAction>, side: RebalanceSide) -> (r: Vec<Dec>)
    requires
        actions_wf(actions@),
    ensures
        r@ == side_amounts(actions@, side),
        forall|i: int| 0 <= i < r@.len() ==> #[trigger] r@[i].wf(),
{
    let mut out: Vec<Dec> = Vec::new();
    let mut i: usize = 0;
    while i < actions.len()
        invariant
            i <= actions@.len(),
            actions_wf(actions@),
            out@ == side_amounts(actions@.take(i as int), side),
            forall|j: int| 0 <= j < out@.len() ==> #[trigger] out@[j].wf(),
        decreases actions@.len() - i,
    {
        assert(actions@.take(i + 1).drop_last() =~= actions@.take(i as int));
        assert(actions@.take(i + 1).last() == actions@[i as int]);
        if actions[i].side == side {
            out.push(actions[i].amount_usd);
        }
        i += 1;
    }
    assert(actions@.take(actions@.len() as int) =~= actions@);
    out
}

/// Totals of buys and sells and whether nothing needs doing; `None` when a
/// total overflows.
pub fn try_summarize(actions: &Vec<RebalanceAction>) -> (r: Option<RebalanceSummary>)
    requires
        actions_wf(actions@),
    ensures
        r is Some == summary_fits(actions@),
        r matches Some(s) ==> {
            &&& Some(s.total_buys) == checked_sum(side_amounts(actions@, RebalanceSide::Buy))
            &&& Some(s.total_sells) == checked_sum(side_amounts(actions@, RebalanceSide::Sell))
            &&& s.in_balance == (actions@.len() == 0)
        },
{
    let buys = amounts_on(actions, RebalanceSide::Buy);
    let sells = amounts_on(actions, RebalanceSide::Sell);
    let total_buys = sum_checked(&buys)?;
    let total_sells = sum_checked(&sells)?;
    Some(RebalanceSummary { total_buys, total_sells, in_balance: actions.len() == 0 })
}

/// Totals of buys and sells (each summed in list order) and whether the
/// list is empty.
pub fn summarize(actions: &Vec<RebalanceAction>) -> (r: RebalanceSummary)
    requires
        actions_wf(actions@),
        summary_fits(actions@),
    ensures
        Some(r.total_buys) == checked_sum(side_amounts(actions@, RebalanceSide::Buy)),
        Some(r.total_sells) == checked_sum(side_amounts(actions@, RebalanceSide::Sell)),
        r.in_balance == (actions@.len() == 0),
{
    try_summarize(actions).unwrap()
}

/// A summary is in balance exactly when no trade is suggested, and then
/// both totals are zero.
pub proof fn summary_balance_law(actions: Seq<RebalanceAction>)
    ensures
        actions.len() == 0 ==> checked_sum(side_amounts(actions, RebalanceSide::Buy)) == Some(
            dec_zero(),
        ) && checked_sum(side_amounts(actions, RebalanceSide::Sell)) == Some(dec_zero()),
{
}

/// The price of `key` in the valuation: its first row's, or zero.
pub open spec fn price_in(assets: Seq<AssetValue>, key: Seq<char>) -> Dec
    decreases assets.len(),
{
    if assets.len() == 0 {
        dec_zero()
    } else if assets[0].asset@ == key {
        assets[0].price
    } else {
        price_in(assets.drop_first(), key)
    }
}

/// The price a sale of `key` is estimated at is a valuation row's unit
/// `price` (not its market value): that of the first row for `key`; zero
/// when no row is for `key`.
pub proof fn price_in_law(assets: Seq<AssetValue>, key: Seq<char>)
    ensures
        held(assets, key) ==> exists|j: int|
            0 <= j < assets.len() && (#[trigger] assets[j]).asset@ == key && price_in(assets, key)
                == assets[j].price && forall|i: int| 0 <= i < j ==> (#[trigger] assets[i]).asset@ != key,
        !held(assets, key) ==> price_in(assets, key) == dec_zero(),
    decreases assets.len(),
{
    if assets.len() > 0 {
        let rest = assets.drop_first();
        price_in_law(rest, key);
        if assets[0].asset@ == key {
            assert(assets[0].asset@ == key);
        } else {
            if held(assets, key) {
                let k = choose|k: int| 0 <= k < assets.len() && (#[trigger] assets[k]).asset@ == key;
                assert(rest[k - 1] == assets[k]);
                assert(held(rest, key));
                let j = choose|j: int|
                    0 <= j < rest.len() && (#[trigger] rest[j]).asset@ == key && price_in(rest, key)
                        == rest[j].price && forall|i: int| 0 <= i < j ==> (#[trigger] rest[i]).asset@ != key;
                assert(assets[j + 1] == rest[j]);
                assert forall|i: int| 0 <= i < j + 1 implies (#[trigger] assets[i]).asset@ != key by {
                    if i > 0 {
                        assert(assets[i] == rest[i - 1]);
                    }
                }
            } else {
                assert forall|i: int| 0 <= i < rest.len() implies (#[trigger] rest[i]).asset@ != key by {
                    assert(rest[i] == assets[i + 1]);
                }
            }
        }
    }
}

/// Under `Full`, the band plays no part in whether a trade is due for an
/// asset, nor in what it is.
pub proof fn full_plan_ignores_band(
    key: Seq<char>,
    assets: Seq<AssetValue>,
    targets: Seq<(String, Dec)>,
    total: Dec,
    weight_sum: Dec,
    band1: Dec,
    band2: Dec,
    min_trade: Dec,
)
    ensures
        spec_plan(key, assets, targets, total, weight_sum, band1, min_trade, Strategy::Full) == spec_plan(
            key,
            assets,
            targets,
            total,
            weight_sum,
            band2,
            min_trade,
            Strategy::Full,
        ),
{
}

/// Under `Full`, `suggest` returns the same trades for any two bands: the
/// same inputs fit, and the same lists meet its contract.
pub proof fn full_ignores_band(
    report: Valuation,
    targets: Seq<(String, Dec)>,
    band1: Dec,
    band2: Dec,
    min_trade: Dec,
    v: Seq<RebalanceAction>,
)
    ensures
        suggest_fits(report, targets, band1, min_trade, Strategy::Full) == suggest_fits(
            report,
            targets,
            band2,
            min_trade,
            Strategy::Full,
        ),
        suggest_result(v, report, targets, band1, min_trade, Strategy::Full) == suggest_result(
            v,
            report,
            targets,
            band2,
            min_trade,
            Strategy::Full,
        ),
{
    let a = report.assets@;
    let tot = report.total_value;
    let ws = checked_sum(amounts(targets))->0;
    assert forall|k: Seq<char>|
        spec_plan(k, a, targets, tot, ws, band1, min_trade, Strategy::Full) == spec_plan(
            k,
            a,
            targets,
            tot,
            ws,
            band2,
            min_trade,
            Strategy::Full,
        ) by {
        full_plan_ignores_band(k, a, targets, tot, ws, band1, band2, min_trade);
    }
}

/// The price of `key` in the valuation (its first row's), or zero.
fn price_of(assets: &Vec<AssetValue>, key: &String) -> (r: Dec)
    requires
        forall|i: int| 0 <= i < assets@.len() ==> #[trigger] assets@[i].wf(),
    ensures
        r == price_in(assets@, key@),
        r.wf(),
{
    let mut i: usize = 0;
    assert(assets@.skip(0) =~= assets@);
    while i < assets.len()
        invariant
            i <= assets@.len(),
            forall|k: int| 0 <= k < assets@.len() ==> #[trigger] assets@[k].wf(),
            price_in(assets@, key@) == price_in(assets@.skip(i as int), key@),
        decreases assets@.len() - i,
    {
        assert(assets@.skip(i as int)[0] == assets@[i as int]);
        assert(assets@.skip(i as int).drop_first() =~= assets@.skip(i + 1));
        if assets[i].asset == *key {
            assert(assets@[i as int].wf());
            return assets[i].price;
        }
        i += 1;
    }
    Dec::zero()
}

/// The trades with each sell's estimated realized gain filled in: the
/// estimate of selling its amount at the asset's valuation price (see
/// `portfolio::estimate_sell_gain`), and none exactly when that estimate
/// fails. Buys are left as they are. The engine panics where its
/// arithmetic overflows; `requires` leaves those sells out.
pub fn annotate_sell_gains(
    actions: Vec<RebalanceAction>,
    report: &Valuation,
    txs: &[Tx],
    now: Timestamp,
) -> (r: Vec<RebalanceAction>)
    requires
        report.wf(),
        ledger_wf(txs@),
        actions_wf(actions@),
        forall|i: int|
            0 <= i < actions@.len() && (#[trigger] actions@[i]).side == RebalanceSide::Sell ==> estimate_runs(
                txs@,
                actions@[i].asset@,
                actions@[i].amount_usd,
                price_in(report.assets@, actions@[i].asset@),
                now,
            ),
    ensures
        r@.len() == actions@.len(),
        forall|i: int|
            0 <= i < r@.len() ==> (#[trigger] r@[i]) == (RebalanceAction {
                est_realized_gain: r@[i].est_realized_gain,
                ..actions@[i]
            }),
        forall|i: int|
            0 <= i < r@.len() && actions@[i].side == RebalanceSide::Buy ==> (#[trigger] r@[i]).est_realized_gain
                == actions@[i].est_realized_gain,
        forall|i: int|
            0 <= i < r@.len() && actions@[i].side == RebalanceSide::Sell ==> match (#[trigger] r@[i]).est_realized_gain {
                Some(g) => spec_estimate(
                    txs@,
                    actions@[i].asset@,
                    actions@[i].amount_usd,
                    price_in(report.assets@, actions@[i].asset@),
                    now,
                ) == Some(g),
                None => spec_estimate(
                    txs@,
                    actions@[i].asset@,
                    actions@[i].amount_usd,
                    price_in(report.assets@, actions@[i].asset@),
                    now,
                ) is None,
            },
{
    let mut out: Vec<RebalanceAction> = Vec::new();
    let mut i: usize = 0;
    let mut rest = actions;
    let ghost all = rest@;
    while i < rest.len()
        invariant
            i <= all.len(),
            rest@ == all,
            report.wf(),
            ledger_wf(txs@),
            actions_wf(all),
            forall|k: int|
                0 <= k < all.len() && (#[trigger] all[k]).side == RebalanceSide::Sell ==> estimate_runs(
                    txs@,
                    all[k].asset@,
                    all[k].amount_usd,
                    price_in(report.assets@, all[k].asset@),
                    now,
                ),
            out@.len() == i,
            forall|k: int|
                0 <= k < i ==> (#[trigger] out@[k]) == (RebalanceAction {
                    est_realized_gain: out@[k].est_realized_gain,
                    ..all[k]
                }),
            forall|k: int|
                0 <= k < i && all[k].side == RebalanceSide::Buy ==> (#[trigger] out@[k]).est_realized_gain
                    == all[k].est_realized_gain,
            forall|k: int|
                0 <= k < i && all[k].side == RebalanceSide::Sell ==> match (#[trigger] out@[k]).est_realized_gain {
                    Some(g) => spec_estimate(
                        txs@,
                        all[k].asset@,
                        all[k].amount_usd,
                        price_in(report.assets@, all[k].asset@),
                        now,
                    ) == Some(g),
                    None => spec_estimate(
                        txs@,
                        all[k].asset@,
                        all[k].amount_usd,
                        price_in(report.assets@, all[k].asset@),
                        now,
                    ) is None,
                },
        decreases all.len() - i,
    {
        let a = &rest[i];
        let est = if a.side == RebalanceSide::Sell {
            let price = price_of(&report.assets, &a.asset);
            assert(all[i as int].amount_usd.wf());
            match estimate_sell_gain(txs, a.asset.as_str(), a.amount_usd, price, now) {
                Ok(g) => Some(g),
                Err(_) => None,
            }
        } else {
            a.est_realized_gain
        };
        out.push(RebalanceAction {
            asset: a.asset.clone(),
            current_value: a.current_value,
            target_value: a.target_value,
            drift: a.drift,
            side: a.side,
            amount_usd: a.amount_usd,
            est_realized_gain: est,
        });
        i += 1;
    }
    out
}

/// The assets target weights are derived for: those with a configured
/// target and those valued, ascending and each once.
pub fn assets_for_targets(targets: &Vec<(String, Dec)>, report: Option<&Valuation>) -> (r: Vec<String>)
    ensures
        ascending(r@),
        forall|s: Seq<char>| #[trigger]
            spells(r@, s) <==> (has_key(targets@, s) || (report matches Some(v) && held(
                v.assets@,
                s,
            ))),
{
    let mut set: Vec<String> = Vec::new();
    let mut i: usize = 0;
    while i < targets.len()
        invariant
            i <= targets@.len(),
            ascending(set@),
            forall|s: Seq<char>| #[trigger] spells(set@, s) <==> has_key(targets@.take(i as int), s),
        decreases targets@.len() - i,
    {
        let ghost before = set@;
        insert_ascending(&mut set, targets[i].0.clone());
        assert forall|s: Seq<char>| #[trigger] spells(set@, s) <==> has_key(targets@.take(i + 1), s) by {
            let pre = targets@.take(i as int);
            let post = targets@.take(i + 1);
            if has_key(post, s) {
                let k = choose|k: int| 0 <= k < post.len() && (#[trigger] post[k]).0@ == s;
                if k < i {
                    assert(pre[k] == post[k]);
                }
            }
            if has_key(pre, s) {
                let k = choose|k: int| 0 <= k < pre.len() && (#[trigger] pre[k]).0@ == s;
                assert(post[k] == pre[k]);
            }
            if s == targets@[i as int].0@ {
                assert(post[i as int].0@ == s);
            }
        }
        i += 1;
    }
    assert(targets@.take(targets@.len() as int) =~= targets@);
    match report {
        Some(v) => {
            let ghost base = set@;
            let mut j: usize = 0;
            while j < v.assets.len()
                invariant
                    j <= v.assets@.len(),
                    ascending(set@),
                    forall|s: Seq<char>| #[trigger]
                        spells(set@, s) <==> (spells(base, s) || held(v.assets@.take(j as int), s)),
                decreases v.assets@.len() - j,
            {
                insert_ascending(&mut set, v.assets[j].asset.clone());
                assert forall|s: Seq<char>| #[trigger]
                    spells(set@, s) <==> (spells(base, s) || held(v.assets@.take(j + 1), s)) by {
                    let pre = v.assets@.take(j as int);
                    let post = v.assets@.take(j + 1);
                    if held(post, s) {
                        let k = choose|k: int| 0 <= k < post.len() && (#[trigger] post[k]).asset@ == s;
                        if k < j {
                            assert(pre[k] == post[k]);
                        }
                    }
                    if held(pre, s) {
                        let k = choose|k: int| 0 <= k < pre.len() && (#[trigger] pre[k]).asset@ == s;
                        assert(post[k] == pre[k]);
                    }
                    if s == v.assets@[j as int].asset@ {
                        assert(post[j as int].asset@ == s);
                    }
                }
                j += 1;
            }
            assert(v.assets@.take(v.assets@.len() as int) =~= v.assets@);
        },
        None => {},
    }
    set
}

/// The allocation of `key` in the valuation: its last row's, as a map
/// filled row by row keeps it.
pub open spec fn allocation_of(assets: Seq<AssetValue>, key: Seq<char>) -> Option<Dec>
    decreases assets.len(),
{
    if assets.len() == 0 {
        None
    } else if assets.last().asset@ == key {
        Some(assets.last().allocation)
    } else {
        allocation_of(assets.drop_last(), key)
    }
}

/// One asset's current and target share, in percent.
#[derive(Clone, Debug)]
pub struct AllocationRow {
    pub asset: String,
    pub current_pct: Dec,
    pub target_pct: Dec,
}

/// A fraction in percent (`x * 100`), `None` on overflow.
pub open spec fn percent(x: Dec) -> Option<Dec> {
    decimal_mul(x, Dec { mantissa: 100, scale: 0 })
}

/// The current allocation of `key` in percent (zero when not valued).
pub open spec fn current_pct_of(assets: Seq<AssetValue>, key: Seq<char>) -> Option<Dec> {
    percent(
        match allocation_of(assets, key) {
            Some(a) => a,
            None => dec_zero(),
        },
    )
}

/// The last row's allocation for `key`, or zero.
fn allocation_or_zero(assets: &Vec<AssetValue>, key: &String) -> (r: Dec)
    requires
        forall|i: int| 0 <= i < assets@.len() ==> #[trigger] assets@[i].wf(),
    ensures
        r == match allocation_of(assets@, key@) {
            Some(a) => a,
            None => dec_zero(),
        },
        r.wf(),
{
    let mut i = assets.len();
    assert(assets@.take(i as int) =~= assets@);
    while i > 0
        invariant
            i <= assets@.len(),
            forall|k: int| 0 <= k < assets@.len() ==> #[trigger] assets@[k].wf(),
            allocation_of(assets@, key@) == allocation_of(assets@.take(i as int), key@),
        decreases i,
    {
        let ghost pre = assets@.take(i as int);
        assert(pre.last() == assets@[i - 1]);
        assert(pre.drop_last() =~= assets@.take(i - 1));
        if assets[i - 1].asset == *key {
            assert(assets@[i - 1].wf());
            return assets[i - 1].allocation;
        }
        i -= 1;
    }
    Dec::zero()
}

/// Current against target allocation, in percent, for every asset valued
/// or targeted (ascending, each once); `None` when a percentage overflows.
pub fn allocation_rows(report: &Valuation, targets: &Vec<(String, Dec)>) -> (r: Option<
    Vec<AllocationRow>,
>)
    requires
        report.wf(),
        entries_wf(targets@),
    ensures
        r matches Some(v) ==> {
            &&& forall|i: int, j: int|
                0 <= i < j < v@.len() ==> lex_lt((#[trigger] v@[i]).asset@, (#[trigger] v@[j]).asset@)
            &&& forall|s: Seq<char>|
                (exists|i: int| 0 <= i < v@.len() && (#[trigger] v@[i]).asset@ == s) <==> (has_key(
                    targets@,
                    s,
                ) || held(report.assets@, s))
            &&& forall|i: int|
                0 <= i < v@.len() ==> Some((#[trigger] v@[i]).current_pct) == current_pct_of(
                    report.assets@,
                    v@[i].asset@,
                ) && Some(v@[i].target_pct) == percent(entry_or_zero(targets@, v@[i].asset@))
        },
        r is None ==> exists|s: Seq<char>|
            (has_key(targets@, s) || held(report.assets@, s)) && (current_pct_of(report.assets@, s) is None
                || percent(entry_or_zero(targets@, s)) is None),
{
    let keys = assets_for_targets(targets, Some(report));
    let hundred = Dec::new(100, 0);
    let mut out: Vec<AllocationRow> = Vec::new();
    let mut i: usize = 0;
    while i < keys.len()
        invariant
            i <= keys@.len(),
            report.wf(),
            entries_wf(targets@),
            hundred == (Dec { mantissa: 100, scale: 0 }),
            ascending(keys@),
            forall|s: Seq<char>| #[trigger]
                spells(keys@, s) <==> (has_key(targets@, s) || held(report.assets@, s)),
            out@.len() == i,
            forall|k: int| 0 <= k < i ==> (#[trigger] out@[k]).asset@ == keys@[k]@,
            forall|k: int|
                0 <= k < i ==> Some((#[trigger] out@[k]).current_pct) == current_pct_of(
                    report.assets@,
                    out@[k].asset@,
                ) && Some(out@[k].target_pct) == percent(entry_or_zero(targets@, out@[k].asset@)),
        decreases keys@.len() - i,
    {
        let key = &keys[i];
        assert(spells(keys@, key@));
        let cur = allocation_or_zero(&report.assets, key);
        let tgt = lookup_or_zero(targets, key);
        let (c, t) = match (cur.checked_mul(&hundred), tgt.checked_mul(&hundred)) {
            (Some(c), Some(t)) => (c, t),
            _ => {
                return None;
            },
        };
        out.push(AllocationRow { asset: key.clone(), current_pct: c, target_pct: t });
        i += 1;
    }
    proof {
        assert forall|s: Seq<char>|
            (exists|i: int| 0 <= i < out@.len() && (#[trigger] out@[i]).asset@ == s) <==> (has_key(
                targets@,
                s,
            ) || held(report.assets@, s)) by {
            if exists|i: int| 0 <= i < out@.len() && (#[trigger] out@[i]).asset@ == s {
                let i = choose|i: int| 0 <= i < out@.len() && (#[trigger] out@[i]).asset@ == s;
                assert(keys@[i]@ == s);
                assert(spells(keys@, s));
            }
            if has_key(targets@, s) || held(report.assets@, s) {
                assert(spells(keys@, s));
                let i = choose|i: int| 0 <= i < keys@.len() && (#[trigger] keys@[i])@ == s;
                assert(out@[i].asset@ == s);
            }
        }
    }
    Some(out)
}

/// A trade's drift as a percentage of the total value (zero when the total
/// is zero); `None` on overflow.
pub fn drift_pct(drift: Dec, total: Dec) -> (r: Option<Dec>)
    requires
        drift.wf(),
        total.wf(),
    ensures
        total.mantissa == 0 ==> r == Some(dec_zero()),
        total.mantissa != 0 ==> r == match decimal_div(drift, total) {
            Some(q) => percent(q),
            None => None,
        },
{
    if total.is_zero() {
        return Some(Dec::zero());
    }
    let q = drift.checked_div(&total)?;
    q.checked_mul(&Dec::new(100, 0))
}

} // verus!
