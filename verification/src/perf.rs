//! Value history: recording snapshots at a minimum interval, and replaying
//! the ledger as of each date of a price history.

use vstd::prelude::*;

use crate::dec::Dec;
use crate::error::AppError;
use crate::model::{ledger_view, Method, Tx, Valuation};
use crate::portfolio::{
    engine_valuation_of, engine_valuation_outcome, ledger_wf, model_builds, PortfolioModel,
};
use crate::table::entries_wf;
use crate::time::{chrono_whole_seconds, datetime_exists, on_or_before_day, ts_lt, Timestamp};

verus! {

/// The portfolio's value, cost and unrealized P&L at one instant.
#[derive(Clone, Copy, Debug)]
pub struct Snapshot {
    pub date: Timestamp,
    pub total_value: Dec,
    pub cost: Dec,
    pub pl: Dec,
}

/// Every snapshot's instant is one `chrono` represents.
pub open spec fn history_wf(h: Seq<Snapshot>) -> bool {
    forall|i: int| 0 <= i < h.len() ==> datetime_exists(#[trigger] h[i].date)
}

/// The history after recording a snapshot at `now`: unchanged (`None`,
/// nothing to write) when the last snapshot is fewer than
/// `min_interval_seconds` whole seconds old, else extended by the new one.
pub fn record_snapshot(
    history: Vec<Snapshot>,
    total_value: Dec,
    cost: Dec,
    pl: Dec,
    now: Timestamp,
    min_interval_seconds: i64,
) -> (r: Option<Vec<Snapshot>>)
    requires
        history_wf(history@),
        datetime_exists(now),
    ensures
        match r {
            None => history@.len() > 0 && chrono_whole_seconds(now, history@.last().date)
                < min_interval_seconds,
            Some(v) => !(history@.len() > 0 && chrono_whole_seconds(now, history@.last().date)
                < min_interval_seconds) && v@ == history@.push(
                Snapshot { date: now, total_value, cost, pl },
            ),
        },
        history@.len() > 0 && history@.last().date == now && min_interval_seconds > 0 ==> r is None,
{
    let n = history.len();
    if n > 0 {
        let last = history[n - 1].date;
        assert(datetime_exists(history@[n - 1].date));
        let age = now.whole_seconds_since(&last);
        if age < min_interval_seconds {
            return None;
        }
    }
    let mut out = history;
    out.push(Snapshot { date: now, total_value, cost, pl });
    Some(out)
}

/// Whether `chrono` represents every snapshot's instant.
pub fn history_representable(history: &Vec<Snapshot>) -> (r: bool)
    ensures
        r == history_wf(history@),
{
    let mut i: usize = 0;
    while i < history.len()
        invariant
            i <= history@.len(),
            forall|k: int| 0 <= k < i ==> datetime_exists(#[trigger] history@[k].date),
        decreases history@.len() - i,
    {
        if !history[i].date.representable() {
            return false;
        }
        i += 1;
    }
    true
}

/// `record_snapshot` for instants not yet known to be representable:
/// `OutOfRange` when `chrono` cannot represent `now` or a snapshot's
/// instant, else what `record_snapshot` gives.
pub fn record_snapshot_checked(
    history: Vec<Snapshot>,
    total_value: Dec,
    cost: Dec,
    pl: Dec,
    now: Timestamp,
    min_interval_seconds: i64,
) -> (r: Result<Option<Vec<Snapshot>>, AppError>)
    ensures
        (history_wf(history@) && datetime_exists(now)) <==> r is Ok,
        r matches Ok(x) ==> match x {
            None => history@.len() > 0 && chrono_whole_seconds(now, history@.last().date)
                < min_interval_seconds,
            Some(v) => !(history@.len() > 0 && chrono_whole_seconds(now, history@.last().date)
                < min_interval_seconds) && v@ == history@.push(
                Snapshot { date: now, total_value, cost, pl },
            ),
        },
        r matches Err(e) ==> e is OutOfRange,
{
    if !now.representable() || !history_representable(&history) {
        return Err(AppError::OutOfRange("instant outside the calendar range".to_string()));
    }
    Ok(record_snapshot(history, total_value, cost, pl, now, min_interval_seconds))
}

/// A coin's dated prices (a point whose price could not be read as a
/// decimal has none).
pub type Series = Vec<(Timestamp, Option<Dec>)>;

/// The events of the ledger dated on or before the UTC calendar day of `d`
/// (no later than the end of that day), in order.
pub open spec fn txs_until(s: Seq<Tx>, d: Timestamp) -> Seq<Tx>
    decreases s.len(),
{
    if s.len() == 0 {
        Seq::empty()
    } else if on_or_before_day(s.last().spec_time(), d) {
        txs_until(s.drop_last(), d).push(s.last())
    } else {
        txs_until(s.drop_last(), d)
    }
}

/// The price of the first point of a series dated `d`: `None` when there
/// is no such point, `Some(None)` when that point has no price.
pub open spec fn first_point(series: Seq<(Timestamp, Option<Dec>)>, d: Timestamp) -> Option<Option<Dec>>
    decreases series.len(),
{
    if series.len() == 0 {
        None
    } else if series[0].0 == d {
        Some(series[0].1)
    } else {
        first_point(series.drop_first(), d)
    }
}

/// The prices on `d`: each coin whose first point dated `d` has a price,
/// with that price, in the history's order.
pub open spec fn prices_at(h: Seq<(String, Series)>, d: Timestamp) -> Seq<(String, Dec)>
    decreases h.len(),
{
    if h.len() == 0 {
        Seq::empty()
    } else {
        let rest = prices_at(h.drop_last(), d);
        match first_point(h.last().1@, d) {
            Some(Some(p)) => rest.push((h.last().0, p)),
            _ => rest,
        }
    }
}

/// Some point of the history is dated `d`.
pub open spec fn history_has(h: Seq<(String, Series)>, d: Timestamp) -> bool {
    exists|i: int, j: int| 0 <= i < h.len() && 0 <= j < h[i].1@.len() && (#[trigger] h[i].1@[j]).0 == d
}

/// The valuation of the events dated on or before the day of `d` at the
/// prices on `d`: `None` when an instant of those events cannot be
/// represented, when the engine rejects them, or when it cannot value
/// them.
pub open spec fn valued_as_of(txs: Seq<Tx>, h: Seq<(String, Series)>, m: Method, d: Timestamp) -> Option<
    Valuation,
> {
    let upto = txs_until(txs, d);
    if model_builds(upto) {
        engine_valuation_of(ledger_view(upto), m, prices_at(h, d))
    } else {
        None
    }
}

/// The engine's arithmetic does not overflow when it values the events
/// dated on or before the day of `d` (once a model of them builds) at the
/// prices on `d`.
pub open spec fn valuation_runs(txs: Seq<Tx>, h: Seq<(String, Series)>, m: Method, d: Timestamp) -> bool {
    model_builds(txs_until(txs, d)) ==> engine_valuation_outcome(
        ledger_view(txs_until(txs, d)),
        m,
        prices_at(h, d),
    ) is Some
}

/// The snapshot of the ledger as of `d` valued at the prices on `d`: the
/// valuation's total value, total cost and total unrealized P&L; `None`
/// when there is no such valuation.
pub open spec fn snapshot_for(txs: Seq<Tx>, h: Seq<(String, Series)>, m: Method, d: Timestamp) -> Option<
    Snapshot,
> {
    match valued_as_of(txs, h, m, d) {
        Some(v) => Some(
            Snapshot { date: d, total_value: v.total_value, cost: v.total_cost, pl: v.total_unrealized },
        ),
        None => None,
    }
}

/// Prices within the decimal bounds.
pub open spec fn history_prices_wf(h: Seq<(String, Series)>) -> bool {
    forall|i: int, j: int|
        0 <= i < h.len() && 0 <= j < h[i].1@.len() ==> match (#[trigger] h[i].1@[j]).1 {
            Some(p) => p.wf(),
            None => true,
        }
}

/// Adds `t` to an ascending list of instants unless it is there already.
#[verifier::spinoff_prover]
fn insert_time(ts: &mut Vec<Timestamp>, t: Timestamp)
    requires
        forall|i: int, j: int| 0 <= i < j < old(ts)@.len() ==> ts_lt(old(ts)@[i], old(ts)@[j]),
    ensures
        forall|i: int, j: int| 0 <= i < j < final(ts)@.len() ==> ts_lt(final(ts)@[i], final(ts)@[j]),
        forall|u: Timestamp| final(ts)@.contains(u) <==> (old(ts)@.contains(u) || u == t),
{
    let mut p: usize = 0;
    while p < ts.len() && ts[p].before(&t)
        invariant
            p <= ts@.len(),
            ts@ == old(ts)@,
            forall|i: int| 0 <= i < p ==> ts_lt(#[trigger] ts@[i], t),
        decreases ts@.len() - p,
    {
        p += 1;
    }
    if p < ts.len() && ts[p].same(&t) {
        assert(ts@[p as int] == t);
        return;
    }
    let ghost before = ts@;
    assert(before == old(ts)@);
    ts.insert(p, t);
    assert forall|i: int, j: int| 0 <= i < j < ts@.len() implies ts_lt(ts@[i], ts@[j]) by {
        if j < p {
            assert(ts@[i] == before[i] && ts@[j] == before[j]);
            assert(ts_lt(before[i], before[j]));
        } else if j == p {
            assert(ts@[i] == before[i]);
            assert(ts_lt(before[i], t));
        } else if i == p {
            assert(ts@[j] == before[j - 1]);
            assert(before[p as int] != t);
            assert(ts_lt(t, before[p as int]));
            if j - 1 > p {
                assert(ts_lt(before[p as int], before[j - 1]));
            }
        } else if i < p {
            assert(ts@[i] == before[i] && ts@[j] == before[j - 1]);
            assert(ts_lt(before[i], before[j - 1]));
        } else {
            assert(ts@[i] == before[i - 1] && ts@[j] == before[j - 1]);
            assert(ts_lt(before[i - 1], before[j - 1]));
        }
    }
    assert forall|u: Timestamp| ts@.contains(u) <==> (before.contains(u) || u == t) by {
        if ts@.contains(u) {
            let k = choose|k: int| 0 <= k < ts@.len() && ts@[k] == u;
            if k < p {
                assert(before[k] == u);
            } else if k > p {
                assert(before[k - 1] == u);
            }
        }
        if before.contains(u) {
            let k = choose|k: int| 0 <= k < before.len() && before[k] == u;
            if k < p {
                assert(ts@[k] == u);
            } else {
                assert(ts@[k + 1] == u);
            }
        }
        if u == t {
            assert(ts@[p as int] == u);
        }
    }
    assert forall|u: Timestamp| #[trigger] ts@.contains(u) <==> (old(ts)@.contains(u) || u == t) by {
        assert(ts@.contains(u) <==> (before.contains(u) || u == t));
    }
}

/// One of the first `n` points of a series is dated `d`.
pub open spec fn series_has(s: Seq<(Timestamp, Option<Dec>)>, n: int, d: Timestamp) -> bool {
    exists|k: int| 0 <= k < n && (#[trigger] s[k]).0 == d
}

/// Every date of the history, ascending, each once.
fn history_dates(history: &Vec<(String, Series)>) -> (r: Vec<Timestamp>)
    ensures
        forall|i: int, j: int| 0 <= i < j < r@.len() ==> ts_lt(r@[i], r@[j]),
        forall|d: Timestamp| r@.contains(d) <==> history_has(history@, d),
{
    let mut dates: Vec<Timestamp> = Vec::new();
    let mut i: usize = 0;
    while i < history.len()
        invariant
            i <= history@.len(),
            forall|a: int, b: int| 0 <= a < b < dates@.len() ==> ts_lt(dates@[a], dates@[b]),
            forall|d: Timestamp| #[trigger]
                dates@.contains(d) <==> history_has(history@.take(i as int), d),
        decreases history@.len() - i,
    {
        let series = &history[i].1;
        let ghost before = dates@;
        assert forall|d: Timestamp| #[trigger] before.contains(d) <==> history_has(history@.take(i as int), d) by {
            assert(dates@.contains(d) <==> history_has(history@.take(i as int), d));
        }
        let ghost sv = history@[i as int].1@;
        let mut j: usize = 0;
        while j < series.len()
            invariant
                j <= series@.len(),
                series@ == sv,
                forall|a: int, b: int| 0 <= a < b < dates@.len() ==> ts_lt(dates@[a], dates@[b]),
                forall|d: Timestamp|
                    #[trigger] dates@.contains(d) <==> (before.contains(d) || series_has(
                        sv,
                        j as int,
                        d,
                    )),
            decreases series@.len() - j,
        {
            let ghost mid = dates@;
            insert_time(&mut dates, series[j].0);
            assert forall|d: Timestamp|
                dates@.contains(d) <==> (before.contains(d) || series_has(sv, j + 1, d)) by {
                assert(dates@.contains(d) == (mid.contains(d) || d == sv[j as int].0));
                assert(mid.contains(d) == (before.contains(d) || series_has(sv, j as int, d)));
                if series_has(sv, j + 1, d) && !series_has(sv, j as int, d) {
                    let k = choose|k: int| 0 <= k < j + 1 && (#[trigger] sv[k]).0 == d;
                    assert(k == j);
                }
                if series_has(sv, j as int, d) {
                    let k = choose|k: int| 0 <= k < j && (#[trigger] sv[k]).0 == d;
                    assert(sv[k].0 == d);
                }
                if d == sv[j as int].0 {
                    assert(sv[j as int].0 == d);
                }
            }
            j += 1;
        }
        assert forall|d: Timestamp|
            dates@.contains(d) <==> history_has(history@.take(i + 1), d) by {
            assert(dates@.contains(d) <==> (before.contains(d) || series_has(sv, sv.len() as int, d)));
            assert(before.contains(d) <==> history_has(history@.take(i as int), d));
            let pre = history@.take(i as int);
            let post = history@.take(i + 1);
            if history_has(post, d) {
                let (a, b) = choose|a: int, b: int|
                    0 <= a < post.len() && 0 <= b < post[a].1@.len() && (#[trigger] post[a].1@[b]).0 == d;
                if a < i {
                    assert(pre[a] == post[a]);
                    assert(pre[a].1@[b].0 == d);
                } else {
                    assert(sv[b].0 == d);
                    assert(series_has(sv, sv.len() as int, d));
                }
            }
            if history_has(pre, d) {
                let (a, b) = choose|a: int, b: int|
                    0 <= a < pre.len() && 0 <= b < pre[a].1@.len() && (#[trigger] pre[a].1@[b]).0 == d;
                assert(post[a] == pre[a]);
                assert(post[a].1@[b].0 == d);
            }
            if series_has(sv, sv.len() as int, d) {
                let k = choose|k: int| 0 <= k < sv.len() && (#[trigger] sv[k]).0 == d;
                assert(post[i as int].1@[k].0 == d);
            }
        }
        i += 1;
    }
    assert(history@.take(history@.len() as int) =~= history@);
    dates
}

/// The events dated on or before the calendar day of `d`.
fn ledger_until(txs: &[Tx], d: Timestamp) -> (r: Vec<Tx>)
    requires
        ledger_wf(txs@),
    ensures
        r@ == txs_until(txs@, d),
        ledger_wf(r@),
{
    let mut out: Vec<Tx> = Vec::new();
    let mut i: usize = 0;
    while i < txs.len()
        invariant
            i <= txs@.len(),
            ledger_wf(txs@),
            out@ == txs_until(txs@.take(i as int), d),
            ledger_wf(out@),
        decreases txs@.len() - i,
    {
        assert(txs@.take(i + 1).drop_last() =~= txs@.take(i as int));
        assert(txs@.take(i + 1).last() == txs@[i as int]);
        let t = txs[i].timestamp();
        if t.on_or_before_day_of(&d) {
            let ghost before = out@;
            out.push(txs[i].duplicate());
            assert forall|k: int| 0 <= k < out@.len() implies #[trigger] out@[k].wf() by {
                if k < before.len() {
                    assert(out@[k] == before[k]);
                } else {
                    assert(out@[k] == txs@[i as int]);
                }
            }
        }
        i += 1;
    }
    assert(txs@.take(txs@.len() as int) =~= txs@);
    out
}

/// The price of the first point of the series dated `d`.
fn first_point_of(series: &Series, d: Timestamp) -> (r: Option<Option<Dec>>)
    ensures
        r == first_point(series@, d),
{
    let mut i: usize = 0;
    assert(series@.skip(0) =~= series@);
    while i < series.len()
        invariant
            i <= series@.len(),
            first_point(series@, d) == first_point(series@.skip(i as int), d),
        decreases series@.len() - i,
    {
        assert(series@.skip(i as int)[0] == series@[i as int]);
        assert(series@.skip(i as int).drop_first() =~= series@.skip(i + 1));
        if series[i].0.same(&d) {
            return Some(series[i].1);
        }
        i += 1;
    }
    None
}

/// The prices on `d` (see `prices_at`).
fn prices_on(history: &Vec<(String, Series)>, d: Timestamp) -> (r: Vec<(String, Dec)>)
    requires
        history_prices_wf(history@),
    ensures
        r@ == prices_at(history@, d),
        entries_wf(r@),
{
    let mut out: Vec<(String, Dec)> = Vec::new();
    let mut i: usize = 0;
    while i < history.len()
        invariant
            i <= history@.len(),
            history_prices_wf(history@),
            out@ == prices_at(history@.take(i as int), d),
            entries_wf(out@),
        decreases history@.len() - i,
    {
        assert(history@.take(i + 1).drop_last() =~= history@.take(i as int));
        assert(history@.take(i + 1).last() == history@[i as int]);
        match first_point_of(&history[i].1, d) {
            Some(Some(p)) => {
                proof {
                    let series = history@[i as int].1@;
                    let k = choose_first(series, d);
                    assert(series[k].1 == Some(p));
                    assert(match (history@[i as int].1@[k]).1 {
                        Some(q) => q.wf(),
                        None => true,
                    });
                }
                let ghost before = out@;
                out.push((history[i].0.clone(), p));
                assert forall|k: int| 0 <= k < out@.len() implies (#[trigger] out@[k]).1.wf() by {
                    if k < before.len() {
                        assert(out@[k] == before[k]);
                    }
                }
            },
            _ => {},
        }
        i += 1;
    }
    assert(history@.take(history@.len() as int) =~= history@);
    out
}

/// The position of the first point dated `d`, when there is one.
proof fn choose_first(series: Seq<(Timestamp, Option<Dec>)>, d: Timestamp) -> (k: int)
    requires
        first_point(series, d) is Some,
    ensures
        0 <= k < series.len(),
        series[k].0 == d,
        Some(series[k].1) == first_point(series, d),
    decreases series.len(),
{
    if series[0].0 == d {
        0
    } else {
        let k = choose_first(series.drop_first(), d);
        k + 1
    }
}

/// The valuation of the events dated on or before the day of `d` at the
/// prices on `d`; `None` when an instant of those events cannot be represented, or
/// the engine rejects them or cannot value them.
pub fn valuation_as_of(txs: &[Tx], history: &Vec<(String, Series)>, method: Method, d: Timestamp) -> (r:
    Option<Valuation>)
    requires
        ledger_wf(txs@),
        history_prices_wf(history@),
        valuation_runs(txs@, history@, method, d),
    ensures
        r == valued_as_of(txs@, history@, method, d),
        r matches Some(v) ==> v.wf(),
{
    let upto = ledger_until(txs, d);
    let prices = prices_on(history, d);
    match PortfolioModel::new(upto.as_slice()) {
        Ok(model) => match model.valuation(method, &prices) {
            Ok(v) => Some(v),
            Err(_) => None,
        },
        Err(_) => None,
    }
}

/// Snapshots rebuilt by replaying the ledger as of each date of the price
/// history: for every date (ascending) on which the events up to that date
/// can be valued at that date's prices, the valuation's totals, and no
/// other snapshot. A date on which the engine cannot build or value the
/// ledger has no snapshot. The engine panics where its arithmetic
/// overflows; `requires` leaves those histories out (`valuation_runs`).
pub fn reconstruct_series(txs: &[Tx], history: &Vec<(String, Series)>, method: Method) -> (r: Vec<
    Snapshot,
>)
    requires
        ledger_wf(txs@),
        history_prices_wf(history@),
        forall|d: Timestamp| #[trigger] history_has(history@, d) ==> valuation_runs(txs@, history@, method, d),
    ensures
        forall|i: int, j: int| 0 <= i < j < r@.len() ==> ts_lt(r@[i].date, r@[j].date),
        forall|i: int|
            0 <= i < r@.len() ==> history_has(history@, (#[trigger] r@[i]).date) && snapshot_for(
                txs@,
                history@,
                method,
                r@[i].date,
            ) == Some(r@[i]),
        forall|d: Timestamp|
            history_has(history@, d) && (#[trigger] snapshot_for(txs@, history@, method, d)) is Some
                ==> exists|i: int| 0 <= i < r@.len() && (#[trigger] r@[i]).date == d,
{
    let dates = history_dates(history);
    let mut out: Vec<Snapshot> = Vec::new();
    let mut i: usize = 0;
    while i < dates.len()
        invariant
            i <= dates@.len(),
            ledger_wf(txs@),
            history_prices_wf(history@),
            forall|d: Timestamp| #[trigger] history_has(history@, d) ==> valuation_runs(txs@, history@, method, d),
            forall|a: int, b: int| 0 <= a < b < dates@.len() ==> ts_lt(dates@[a], dates@[b]),
            forall|d: Timestamp| dates@.contains(d) <==> history_has(history@, d),
            forall|a: int| 0 <= a < out@.len() ==> exists|b: int| 0 <= b < i && dates@[b] == (#[trigger] out@[a]).date,
            forall|a: int, b: int| 0 <= a < b < out@.len() ==> ts_lt(out@[a].date, out@[b].date),
            forall|a: int|
                0 <= a < out@.len() ==> history_has(history@, (#[trigger] out@[a]).date) && snapshot_for(
                    txs@,
                    history@,
                    method,
                    out@[a].date,
                ) == Some(out@[a]),
            forall|b: int|
                0 <= b < i && snapshot_for(txs@, history@, method, #[trigger] dates@[b]) is Some
                    ==> exists|a: int| 0 <= a < out@.len() && (#[trigger] out@[a]).date == dates@[b],
        decreases dates@.len() - i,
    {
        let d = dates[i];
        assert(dates@.contains(d));
        assert(history_has(history@, d));
        match valuation_as_of(txs, history, method, d) {
            Some(v) => {
                let snap = Snapshot {
                    date: d,
                    total_value: v.total_value,
                    cost: v.total_cost,
                    pl: v.total_unrealized,
                };
                let ghost before = out@;
                assert forall|a: int| 0 <= a < before.len() implies ts_lt(before[a].date, d) by {
                    let b = choose|b: int| 0 <= b < i && dates@[b] == before[a].date;
                    assert(ts_lt(dates@[b], dates@[i as int]));
                }
                out.push(snap);
                assert forall|a: int| 0 <= a < out@.len() implies exists|b: int|
                    0 <= b < i + 1 && dates@[b] == (#[trigger] out@[a]).date by {
                    if a < before.len() {
                        assert(out@[a] == before[a]);
                        let b = choose|b: int| 0 <= b < i && dates@[b] == before[a].date;
                        assert(dates@[b] == out@[a].date);
                    } else {
                        assert(dates@[i as int] == out@[a].date);
                    }
                }
                assert forall|a: int, b: int| 0 <= a < b < out@.len() implies ts_lt(
                    out@[a].date,
                    out@[b].date,
                ) by {
                    if b < before.len() {
                        assert(out@[a] == before[a] && out@[b] == before[b]);
                    } else {
                        assert(out@[a] == before[a]);
                    }
                }
                assert forall|a: int| 0 <= a < out@.len() implies history_has(
                    history@,
                    (#[trigger] out@[a]).date,
                ) && snapshot_for(txs@, history@, method, out@[a].date) == Some(out@[a]) by {
                    if a < before.len() {
                        assert(out@[a] == before[a]);
                    }
                }
                assert forall|b: int|
                    0 <= b < i + 1 && snapshot_for(txs@, history@, method, #[trigger] dates@[b]) is Some
                        implies exists|a: int| 0 <= a < out@.len() && (#[trigger] out@[a]).date == dates@[b] by {
                    if b < i {
                        let a = choose|a: int| 0 <= a < before.len() && (#[trigger] before[a]).date == dates@[b];
                        assert(out@[a] == before[a]);
                    } else {
                        assert(out@[before.len() as int].date == dates@[b]);
                    }
                }
            },
            None => {
                assert(snapshot_for(txs@, history@, method, dates@[i as int]) is None);
            },
        }
        i += 1;
    }
    proof {
        assert forall|d: Timestamp|
            history_has(history@, d) && (#[trigger] snapshot_for(txs@, history@, method, d)) is Some
                implies exists|a: int| 0 <= a < out@.len() && (#[trigger] out@[a]).date == d by {
            assert(dates@.contains(d));
            let b = choose|b: int| 0 <= b < dates@.len() && dates@[b] == d;
            assert(snapshot_for(txs@, history@, method, dates@[b]) is Some);
        }
    }
    out
}

} // verus!
