//! The rows of the prices and P&L table: one per valued asset with its
//! quote, profit percentage and allocation percentage, sorted by the chosen
//! column, and the column totals.

use vstd::prelude::*;

use crate::config::{spec_symbol, Config};
use crate::controls::SortKey;
use crate::dec::{checked_sum, dec_lt, dec_zero, decimal_div, decimal_mul, lemma_dec_lt_order, sum_checked, Dec};
use crate::model::{AssetValue, Valuation};
use crate::prices::Quote;
use crate::text::{lemma_lex_irreflexive, lemma_lex_transitive, lemma_lex_trichotomy, lex_lt, str_less, str_same};

verus! {

/// One row of the prices table.
#[derive(Clone, Debug)]
pub struct PriceRow {
    pub symbol: String,
    pub asset: String,
    pub price: Dec,
    pub change_24h: Dec,
    pub change_7d: Option<Dec>,
    pub held: Dec,
    pub cost: Dec,
    pub value: Dec,
    pub profit: Dec,
    pub profit_pct: Dec,
    pub alloc: Dec,
}

impl PriceRow {
    /// The sortable amounts are within the decimal bounds.
    pub open spec fn wf(&self) -> bool {
        &&& self.price.wf()
        &&& self.change_24h.wf()
        &&& self.held.wf()
        &&& self.cost.wf()
        &&& self.value.wf()
        &&& self.profit.wf()
        &&& self.profit_pct.wf()
        &&& self.alloc.wf()
    }

    /// A field-by-field copy.
    pub fn duplicate(&self) -> (r: PriceRow)
        ensures
            r == *self,
    {
        PriceRow {
            symbol: self.symbol.clone(),
            asset: self.asset.clone(),
            price: self.price,
            change_24h: self.change_24h,
            change_7d: self.change_7d,
            held: self.held,
            cost: self.cost,
            value: self.value,
            profit: self.profit,
            profit_pct: self.profit_pct,
            alloc: self.alloc,
        }
    }
}

/// One hundred.
pub open spec fn hundred() -> Dec {
    Dec { mantissa: 100, scale: 0 }
}

/// The quote of `asset`: the first one for it.
pub open spec fn quote_for(quotes: Seq<(String, Quote)>, asset: Seq<char>) -> Option<Quote>
    decreases quotes.len(),
{
    if quotes.len() == 0 {
        None
    } else if quotes[0].0@ == asset {
        Some(quotes[0].1)
    } else {
        quote_for(quotes.drop_first(), asset)
    }
}

/// Profit as a percentage of cost (`profit / cost * 100`), zero when there
/// is no cost; `None` on overflow.
pub open spec fn profit_pct_of(profit: Dec, cost: Dec) -> Option<Dec> {
    if cost.mantissa == 0 {
        Some(dec_zero())
    } else {
        match decimal_div(profit, cost) {
            Some(q) => decimal_mul(q, hundred()),
            None => None,
        }
    }
}

/// The row shows the valuation row, its quote (24h change zero and 7d
/// change none without one), its display symbol, the profit percentage and
/// the allocation in percent.
pub open spec fn row_matches(
    r: PriceRow,
    av: AssetValue,
    quotes: Seq<(String, Quote)>,
    symbols: Seq<(String, String)>,
) -> bool {
    &&& r.symbol@ == spec_symbol(symbols, av.asset@)
    &&& r.asset@ == av.asset@
    &&& r.price == av.price
    &&& r.change_24h == match quote_for(quotes, av.asset@) {
        Some(q) => q.change_24h,
        None => dec_zero(),
    }
    &&& r.change_7d == match quote_for(quotes, av.asset@) {
        Some(q) => q.change_7d,
        None => None,
    }
    &&& r.held == av.quantity
    &&& r.cost == av.cost_basis
    &&& r.value == av.market_value
    &&& r.profit == av.unrealized
    &&& Some(r.profit_pct) == profit_pct_of(av.unrealized, av.cost_basis)
    &&& Some(r.alloc) == decimal_mul(av.allocation, hundred())
}

/// Every row's percentages stay within range.
pub open spec fn rows_fit(assets: Seq<AssetValue>) -> bool {
    forall|i: int|
        0 <= i < assets.len() ==> (#[trigger] profit_pct_of(assets[i].unrealized, assets[i].cost_basis))
            is Some && decimal_mul(assets[i].allocation, hundred()) is Some
}

/// Quotes within the decimal bounds.
pub open spec fn quotes_wf(quotes: Seq<(String, Quote)>) -> bool {
    forall|i: int| 0 <= i < quotes.len() ==> (#[trigger] quotes[i]).1.change_24h.wf()
}

/// The quote of `asset`, if any (the first one for it).
fn find_quote(quotes: &Vec<(String, Quote)>, asset: &String) -> (r: Option<Quote>)
    requires
        quotes_wf(quotes@),
    ensures
        r == quote_for(quotes@, asset@),
        r matches Some(q) ==> q.change_24h.wf(),
{
    let mut i: usize = 0;
    assert(quotes@.skip(0) =~= quotes@);
    while i < quotes.len()
        invariant
            i <= quotes@.len(),
            quotes_wf(quotes@),
            quote_for(quotes@, asset@) == quote_for(quotes@.skip(i as int), asset@),
        decreases quotes@.len() - i,
    {
        assert(quotes@.skip(i as int)[0] == quotes@[i as int]);
        assert(quotes@.skip(i as int).drop_first() =~= quotes@.skip(i + 1));
        if quotes[i].0 == *asset {
            assert(quotes@[i as int].1.change_24h.wf());
            return Some(quotes[i].1);
        }
        i += 1;
    }
    None
}

/// One row per valued asset, in the valuation's order; `None` when a
/// percentage overflows.
pub fn price_rows(report: &Valuation, quotes: &Vec<(String, Quote)>, config: &Config) -> (r: Option<
    Vec<PriceRow>,
>)
    requires
        report.wf(),
        quotes_wf(quotes@),
    ensures
        r is Some == rows_fit(report.assets@),
        r matches Some(v) ==> {
            &&& v@.len() == report.assets@.len()
            &&& forall|i: int|
                0 <= i < v@.len() ==> row_matches(
                    #[trigger] v@[i],
                    report.assets@[i],
                    quotes@,
                    config.symbols@,
                ) && v@[i].wf()
        },
{
    let hundred = Dec::new(100, 0);
    let mut out: Vec<PriceRow> = Vec::new();
    let mut i: usize = 0;
    while i < report.assets.len()
        invariant
            i <= report.assets@.len(),
            report.wf(),
            quotes_wf(quotes@),
            hundred == crate::price_table::hundred(),
            out@.len() == i,
            forall|k: int|
                0 <= k < i ==> row_matches(#[trigger] out@[k], report.assets@[k], quotes@, config.symbols@)
                    && out@[k].wf(),
            forall|k: int|
                0 <= k < i ==> (#[trigger] profit_pct_of(
                    report.assets@[k].unrealized,
                    report.assets@[k].cost_basis,
                )) is Some && decimal_mul(report.assets@[k].allocation, crate::price_table::hundred())
                    is Some,
        decreases report.assets@.len() - i,
    {
        let av = &report.assets[i];
        assert(report.assets@[i as int].wf());
        let quote = find_quote(quotes, &av.asset);
        let profit_pct = if av.cost_basis.is_zero() {
            Dec::zero()
        } else {
            match av.unrealized.checked_div(&av.cost_basis) {
                Some(q) => match q.checked_mul(&hundred) {
                    Some(p) => p,
                    None => {
                        assert(profit_pct_of(report.assets@[i as int].unrealized, report.assets@[i as int].cost_basis) is None);
                        return None;
                    },
                },
                None => {
                    assert(profit_pct_of(report.assets@[i as int].unrealized, report.assets@[i as int].cost_basis) is None);
                    return None;
                },
            }
        };
        let alloc = match av.allocation.checked_mul(&hundred) {
            Some(a) => a,
            None => {
                assert(profit_pct_of(report.assets@[i as int].unrealized, report.assets@[i as int].cost_basis) is Some);
                return None;
            },
        };
        let (change_24h, change_7d) = match quote {
            Some(q) => (q.change_24h, q.change_7d),
            None => (Dec::zero(), None),
        };
        out.push(
            PriceRow {
                symbol: config.symbol(av.asset.as_str()),
                asset: av.asset.clone(),
                price: av.price,
                change_24h,
                change_7d,
                held: av.quantity,
                cost: av.cost_basis,
                value: av.market_value,
                profit: av.unrealized,
                profit_pct,
                alloc,
            },
        );
        i += 1;
    }
    Some(out)
}

/// `a` sorts strictly before `b` by the column, ascending.
pub open spec fn key_lt(a: PriceRow, b: PriceRow, key: SortKey) -> bool {
    match key {
        SortKey::Symbol => lex_lt(a.symbol@, b.symbol@),
        SortKey::Price => dec_lt(a.price, b.price),
        SortKey::Change24h => dec_lt(a.change_24h, b.change_24h),
        SortKey::Value => dec_lt(a.value, b.value),
        SortKey::Profit => dec_lt(a.profit, b.profit),
    }
}

/// `a` sorts strictly before `b` by the column, in the chosen direction.
pub open spec fn comes_before(a: PriceRow, b: PriceRow, key: SortKey, desc: bool) -> bool {
    if desc {
        key_lt(b, a, key)
    } else {
        key_lt(a, b, key)
    }
}

/// Sorting by a column is a strict weak order.
pub proof fn lemma_comes_before_order(a: PriceRow, b: PriceRow, c: PriceRow, key: SortKey, desc: bool)
    ensures
        !comes_before(a, a, key, desc),
        comes_before(a, b, key, desc) && comes_before(b, c, key, desc) ==> comes_before(a, c, key, desc),
        comes_before(a, b, key, desc) ==> !comes_before(b, a, key, desc),
        comes_before(a, b, key, desc) ==> comes_before(a, c, key, desc) || comes_before(c, b, key, desc),
{
    match key {
        SortKey::Symbol => {
            lemma_lex_irreflexive(a.symbol@);
            lemma_lex_trichotomy(a.symbol@, b.symbol@);
            lemma_lex_trichotomy(a.symbol@, c.symbol@);
            lemma_lex_trichotomy(b.symbol@, c.symbol@);
            if lex_lt(a.symbol@, b.symbol@) && lex_lt(b.symbol@, c.symbol@) {
                lemma_lex_transitive(a.symbol@, b.symbol@, c.symbol@);
            }
            if lex_lt(c.symbol@, b.symbol@) && lex_lt(b.symbol@, a.symbol@) {
                lemma_lex_transitive(c.symbol@, b.symbol@, a.symbol@);
            }
            if lex_lt(b.symbol@, c.symbol@) && lex_lt(a.symbol@, b.symbol@) {
                lemma_lex_transitive(a.symbol@, b.symbol@, c.symbol@);
            }
            if lex_lt(b.symbol@, a.symbol@) && lex_lt(c.symbol@, b.symbol@) {
                lemma_lex_transitive(c.symbol@, b.symbol@, a.symbol@);
            }
        },
        SortKey::Price => {
            lemma_dec_lt_order(a.price, b.price, c.price);
            lemma_dec_lt_order(b.price, a.price, c.price);
            lemma_dec_lt_order(c.price, b.price, a.price);
            lemma_dec_lt_order(b.price, c.price, a.price);
        },
        SortKey::Change24h => {
            lemma_dec_lt_order(a.change_24h, b.change_24h, c.change_24h);
            lemma_dec_lt_order(b.change_24h, a.change_24h, c.change_24h);
            lemma_dec_lt_order(c.change_24h, b.change_24h, a.change_24h);
            lemma_dec_lt_order(b.change_24h, c.change_24h, a.change_24h);
        },
        SortKey::Value => {
            lemma_dec_lt_order(a.value, b.value, c.value);
            lemma_dec_lt_order(b.value, a.value, c.value);
            lemma_dec_lt_order(c.value, b.value, a.value);
            lemma_dec_lt_order(b.value, c.value, a.value);
        },
        SortKey::Profit => {
            lemma_dec_lt_order(a.profit, b.profit, c.profit);
            lemma_dec_lt_order(b.profit, a.profit, c.profit);
            lemma_dec_lt_order(c.profit, b.profit, a.profit);
            lemma_dec_lt_order(b.profit, c.profit, a.profit);
        },
    }
}

/// Whether `a` sorts strictly before `b`.
fn before(a: &PriceRow, b: &PriceRow, key: SortKey, desc: bool) -> (r: bool)
    requires
        a.wf(),
        b.wf(),
    ensures
        r == comes_before(*a, *b, key, desc),
{
    let (x, y) = if desc {
        (b, a)
    } else {
        (a, b)
    };
    match key {
        SortKey::Symbol => str_less(x.symbol.as_str(), y.symbol.as_str()),
        SortKey::Price => x.price.lt(&y.price),
        SortKey::Change24h => x.change_24h.lt(&y.change_24h),
        SortKey::Value => x.value.lt(&y.value),
        SortKey::Profit => x.profit.lt(&y.profit),
    }
}

/// `output` is `input` stably sorted by the column: `perm` says where each
/// output row came from (each input position once), no row sorts before
/// an earlier one, and rows that tie keep their input order.
pub open spec fn stable_sorted(
    perm: Seq<int>,
    input: Seq<PriceRow>,
    output: Seq<PriceRow>,
    key: SortKey,
    desc: bool,
) -> bool {
    &&& perm.len() == input.len()
    &&& output.len() == input.len()
    &&& forall|k: int| 0 <= k < perm.len() ==> 0 <= #[trigger] perm[k] < input.len()
    &&& forall|k: int| 0 <= k < perm.len() ==> output[k] == input[#[trigger] perm[k]]
    &&& forall|k: int, l: int| 0 <= k < l < perm.len() ==> perm[k] != perm[l]
    &&& forall|k: int, l: int|
        0 <= k < l < output.len() ==> !comes_before(output[l], output[k], key, desc)
    &&& forall|k: int, l: int|
        0 <= k < l < output.len() && !comes_before(output[k], output[l], key, desc) ==> perm[k]
            < perm[l]
}

/// The rows stably sorted by the column, ascending or descending.
pub fn sort_rows(rows: &Vec<PriceRow>, key: SortKey, desc: bool) -> (r: Vec<PriceRow>)
    requires
        forall|i: int| 0 <= i < rows@.len() ==> (#[trigger] rows@[i]).wf(),
    ensures
        exists|perm: Seq<int>| stable_sorted(perm, rows@, r@, key, desc),
        forall|i: int| 0 <= i < r@.len() ==> (#[trigger] r@[i]).wf(),
{
    let mut out: Vec<PriceRow> = Vec::new();
    let ghost mut perm: Seq<int> = Seq::empty();
    let mut i: usize = 0;
    while i < rows.len()
        invariant
            i <= rows@.len(),
            forall|j: int| 0 <= j < rows@.len() ==> (#[trigger] rows@[j]).wf(),
            out@.len() == i,
            perm.len() == i,
            forall|k: int| 0 <= k < perm.len() ==> 0 <= #[trigger] perm[k] < i,
            forall|k: int| 0 <= k < perm.len() ==> out@[k] == rows@[#[trigger] perm[k]],
            forall|k: int| 0 <= k < out@.len() ==> (#[trigger] out@[k]).wf(),
            forall|k: int, l: int| 0 <= k < l < perm.len() ==> perm[k] != perm[l],
            forall|k: int, l: int|
                0 <= k < l < out@.len() ==> !comes_before(out@[l], out@[k], key, desc),
            forall|k: int, l: int|
                0 <= k < l < out@.len() && !comes_before(out@[k], out@[l], key, desc) ==> perm[k]
                    < perm[l],
        decreases rows@.len() - i,
    {
        let x = rows[i].duplicate();
        assert(rows@[i as int].wf());
        let mut p: usize = 0;
        while p < out.len() && !before(&x, &out[p], key, desc)
            invariant
                p <= out@.len(),
                x.wf(),
                x == rows@[i as int],
                forall|j: int| 0 <= j < rows@.len() ==> (#[trigger] rows@[j]).wf(),
                forall|k: int| 0 <= k < perm.len() ==> out@[k] == rows@[#[trigger] perm[k]],
                perm.len() == out@.len(),
                forall|k: int| 0 <= k < perm.len() ==> 0 <= #[trigger] perm[k] < i,
                forall|k: int| 0 <= k < p ==> !comes_before(x, #[trigger] out@[k], key, desc),
                forall|k: int| 0 <= k < out@.len() ==> (#[trigger] out@[k]).wf(),
            decreases out@.len() - p,
        {
            assert(out@[p as int] == rows@[perm[p as int]]);
            p += 1;
        }
        let ghost old_out = out@;
        let ghost old_perm = perm;
        proof {
            assert forall|k: int| 0 <= k < old_out.len() implies (#[trigger] old_out[k]).wf() by {
                assert(old_out[k] == rows@[old_perm[k]]);
            }
        }
        out.insert(p, x);
        proof {
            perm = perm.insert(p as int, i as int);
            assert forall|k: int| 0 <= k < out@.len() implies (#[trigger] out@[k]).wf() by {
                if k < p {
                    assert(out@[k] == old_out[k]);
                } else if k > p {
                    assert(out@[k] == old_out[k - 1]);
                }
            }
            assert forall|k: int| 0 <= k < perm.len() implies 0 <= #[trigger] perm[k] < i + 1 by {
                if k < p {
                    assert(perm[k] == old_perm[k]);
                } else if k > p {
                    assert(perm[k] == old_perm[k - 1]);
                }
            }
            assert forall|k: int| 0 <= k < perm.len() implies out@[k] == rows@[#[trigger] perm[k]] by {
                if k < p {
                    assert(perm[k] == old_perm[k] && out@[k] == old_out[k]);
                } else if k > p {
                    assert(perm[k] == old_perm[k - 1] && out@[k] == old_out[k - 1]);
                }
            }
            assert forall|k: int, l: int| 0 <= k < l < perm.len() implies perm[k] != perm[l] by {
                if k < p && l < p {
                    assert(perm[k] == old_perm[k] && perm[l] == old_perm[l]);
                } else if k < p && l > p {
                    assert(perm[k] == old_perm[k] && perm[l] == old_perm[l - 1]);
                } else if k > p {
                    assert(perm[k] == old_perm[k - 1] && perm[l] == old_perm[l - 1]);
                } else if k == p {
                    assert(perm[l] == old_perm[l - 1]);
                } else {
                    assert(perm[k] == old_perm[k]);
                }
            }
            // What the scan stopped at sorts strictly after `x`.
            assert(p < old_out.len() ==> comes_before(x, old_out[p as int], key, desc));
            assert forall|k: int, l: int| 0 <= k < l < out@.len() implies !comes_before(
                out@[l],
                out@[k],
                key,
                desc,
            ) by {
                if l < p {
                    assert(out@[k] == old_out[k] && out@[l] == old_out[l]);
                } else if l == p {
                    assert(out@[k] == old_out[k]);
                    lemma_comes_before_order(x, old_out[k], x, key, desc);
                    assert(!comes_before(x, old_out[k], key, desc));
                } else if k == p {
                    assert(out@[l] == old_out[l - 1]);
                    lemma_comes_before_order(x, old_out[p as int], old_out[l - 1], key, desc);
                    if l - 1 > p {
                        assert(!comes_before(old_out[l - 1], old_out[p as int], key, desc));
                    }
                    lemma_comes_before_order(old_out[l - 1], x, old_out[p as int], key, desc);
                } else if k < p {
                    assert(out@[k] == old_out[k] && out@[l] == old_out[l - 1]);
                } else {
                    assert(out@[k] == old_out[k - 1] && out@[l] == old_out[l - 1]);
                }
            }
            assert forall|k: int, l: int|
                0 <= k < l < out@.len() && !comes_before(out@[k], out@[l], key, desc) implies perm[k]
                < perm[l] by {
                if l < p {
                    assert(out@[k] == old_out[k] && out@[l] == old_out[l]);
                    assert(perm[k] == old_perm[k] && perm[l] == old_perm[l]);
                } else if l == p {
                    assert(perm[k] == old_perm[k]);
                } else if k == p {
                    assert(out@[l] == old_out[l - 1]);
                    lemma_comes_before_order(x, old_out[p as int], old_out[l - 1], key, desc);
                    if l - 1 > p {
                        assert(!comes_before(old_out[l - 1], old_out[p as int], key, desc));
                    }
                    assert(comes_before(x, old_out[l - 1], key, desc));
                } else if k < p {
                    assert(out@[k] == old_out[k] && out@[l] == old_out[l - 1]);
                    assert(perm[k] == old_perm[k] && perm[l] == old_perm[l - 1]);
                } else {
                    assert(out@[k] == old_out[k - 1] && out@[l] == old_out[l - 1]);
                    assert(perm[k] == old_perm[k - 1] && perm[l] == old_perm[l - 1]);
                }
            }
        }
        i += 1;
    }
    proof {
        assert(stable_sorted(perm, rows@, out@, key, desc));
        assert forall|k: int| 0 <= k < out@.len() implies (#[trigger] out@[k]).wf() by {
            assert(out@[k] == rows@[perm[k]]);
        }
    }
    out
}

/// The totals of the cost, value, profit and allocation columns.
#[derive(Clone, Copy, Debug)]
pub struct PriceTotals {
    pub cost: Dec,
    pub value: Dec,
    pub profit: Dec,
    pub alloc: Dec,
}

/// A column of the rows.
pub open spec fn column(rows: Seq<PriceRow>, f: spec_fn(PriceRow) -> Dec) -> Seq<Dec> {
    rows.map_values(f)
}

/// The column totals, each summed in row order; `None` when one overflows.
pub fn row_totals(rows: &Vec<PriceRow>) -> (r: Option<PriceTotals>)
    requires
        forall|i: int| 0 <= i < rows@.len() ==> (#[trigger] rows@[i]).wf(),
    ensures
        match r {
            Some(t) => {
                &&& Some(t.cost) == checked_sum(column(rows@, |x: PriceRow| x.cost))
                &&& Some(t.value) == checked_sum(column(rows@, |x: PriceRow| x.value))
                &&& Some(t.profit) == checked_sum(column(rows@, |x: PriceRow| x.profit))
                &&& Some(t.alloc) == checked_sum(column(rows@, |x: PriceRow| x.alloc))
            },
            None => checked_sum(column(rows@, |x: PriceRow| x.cost)) is None || checked_sum(
                column(rows@, |x: PriceRow| x.value),
            ) is None || checked_sum(column(rows@, |x: PriceRow| x.profit)) is None || checked_sum(
                column(rows@, |x: PriceRow| x.alloc),
            ) is None,
        },
{
    let mut cost: Vec<Dec> = Vec::new();
    let mut value: Vec<Dec> = Vec::new();
    let mut profit: Vec<Dec> = Vec::new();
    let mut alloc: Vec<Dec> = Vec::new();
    let mut i: usize = 0;
    while i < rows.len()
        invariant
            i <= rows@.len(),
            forall|k: int| 0 <= k < rows@.len() ==> (#[trigger] rows@[k]).wf(),
            cost@ == column(rows@, |x: PriceRow| x.cost).take(i as int),
            value@ == column(rows@, |x: PriceRow| x.value).take(i as int),
            profit@ == column(rows@, |x: PriceRow| x.profit).take(i as int),
            alloc@ == column(rows@, |x: PriceRow| x.alloc).take(i as int),
        decreases rows@.len() - i,
    {
        cost.push(rows[i].cost);
        value.push(rows[i].value);
        profit.push(rows[i].profit);
        alloc.push(rows[i].alloc);
        i += 1;
        assert(cost@ =~= column(rows@, |x: PriceRow| x.cost).take(i as int));
        assert(value@ =~= column(rows@, |x: PriceRow| x.value).take(i as int));
        assert(profit@ =~= column(rows@, |x: PriceRow| x.profit).take(i as int));
        assert(alloc@ =~= column(rows@, |x: PriceRow| x.alloc).take(i as int));
    }
    assert(cost@ =~= column(rows@, |x: PriceRow| x.cost));
    assert(value@ =~= column(rows@, |x: PriceRow| x.value));
    assert(profit@ =~= column(rows@, |x: PriceRow| x.profit));
    assert(alloc@ =~= column(rows@, |x: PriceRow| x.alloc));
    assert forall|k: int| 0 <= k < cost@.len() implies (#[trigger] cost@[k]).wf() by {
        assert(rows@[k].wf());
    }
    assert forall|k: int| 0 <= k < value@.len() implies (#[trigger] value@[k]).wf() by {
        assert(rows@[k].wf());
    }
    assert forall|k: int| 0 <= k < profit@.len() implies (#[trigger] profit@[k]).wf() by {
        assert(rows@[k].wf());
    }
    assert forall|k: int| 0 <= k < alloc@.len() implies (#[trigger] alloc@[k]).wf() by {
        assert(rows@[k].wf());
    }
    let c = sum_checked(&cost)?;
    let v = sum_checked(&value)?;
    let p = sum_checked(&profit)?;
    let a = sum_checked(&alloc)?;
    Some(PriceTotals { cost: c, value: v, profit: p, alloc: a })
}

} // verus!
