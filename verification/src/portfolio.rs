//! A ledger held together with the cost-basis engine's view of it, the
//! queries made under a chosen method, and the values derived from them.

use vstd::prelude::*;

use crate::dec::{checked_sum, dec_lt, dec_zero, decimal_div, decimal_mul, decimal_sub, Dec, sum_checked};
use crate::engine;
use crate::error::AppError;
use crate::model::{
    copy_ledger, ledger_view, GainRow, GainsReport, IncomeStatement, Method, Position, Tx, TxView,
    Valuation,
};
use crate::table::{entries_wf, entry_or_zero, lookup_or_zero};
use crate::time::{datetime_exists, Timestamp};

verus! {

/// A holding enriched with the current price, market value and unrealized
/// profit or loss.
#[derive(Clone, Debug)]
pub struct HoldingValue {
    pub holding: Position,
    pub price: Dec,
    pub current_value: Dec,
    pub unrealized: Dec,
}

/// A ledger together with the engine portfolio built from it: `portfolio`
/// is always `Portfolio::from_transactions` of `txs`, since only `new`
/// builds a model.
pub struct PortfolioModel {
    portfolio: coinbasis::Portfolio,
    txs: Vec<Tx>,
}

/// Every event of the ledger is within the decimal bounds.
pub open spec fn ledger_wf(s: Seq<Tx>) -> bool {
    forall|i: int| 0 <= i < s.len() ==> #[trigger] s[i].wf()
}

/// `chrono` can represent every instant the event carries.
pub open spec fn tx_representable(tx: Tx) -> bool {
    &&& datetime_exists(tx.spec_time())
    &&& (tx matches Tx::GiftReceived { donor_acquired_at, .. } ==> datetime_exists(
        donor_acquired_at,
    ))
}

/// `chrono` can represent every instant of the ledger.
pub open spec fn ledger_representable(s: Seq<Tx>) -> bool {
    forall|i: int| 0 <= i < s.len() ==> #[trigger] tx_representable(s[i])
}

/// A holding valued at a price (zero when the asset has none):
/// `current_value = quantity * price`, `unrealized = current_value - cost_basis`;
/// `None` when the arithmetic overflows.
pub open spec fn spec_value_holding(h: Position, prices: Seq<(String, Dec)>) -> Option<
    HoldingValue,
> {
    let price = entry_or_zero(prices, h.asset@);
    match decimal_mul(h.quantity, price) {
        Some(cv) => match decimal_sub(cv, h.cost_basis) {
            Some(u) => Some(HoldingValue { holding: h, price, current_value: cv, unrealized: u }),
            None => None,
        },
        None => None,
    }
}

/// Values each holding at its price (zero when unpriced), in order; `None`
/// when some product or difference overflows.
pub fn value_holdings(holdings: Vec<Position>, prices: &Vec<(String, Dec)>) -> (r: Option<
    Vec<HoldingValue>,
>)
    requires
        forall|i: int| 0 <= i < holdings@.len() ==> #[trigger] holdings@[i].wf(),
        entries_wf(prices@),
    ensures
        r matches Some(v) ==> v@.len() == holdings@.len() && forall|i: int|
            0 <= i < v@.len() ==> spec_value_holding(holdings@[i], prices@) == Some(
                #[trigger] v@[i],
            ),
        r is None ==> exists|i: int|
            0 <= i < holdings@.len() && spec_value_holding(#[trigger] holdings@[i], prices@)
                is None,
{
    let mut out: Vec<HoldingValue> = Vec::new();
    let mut i: usize = 0;
    while i < holdings.len()
        invariant
            i <= holdings.len(),
            out@.len() == i,
            forall|j: int| 0 <= j < holdings@.len() ==> #[trigger] holdings@[j].wf(),
            entries_wf(prices@),
            forall|j: int|
                0 <= j < i ==> spec_value_holding(holdings@[j], prices@) == Some(#[trigger] out@[j]),
        decreases holdings.len() - i,
    {
        let h = holdings[i].duplicate();
        assert(h == holdings@[i as int]);
        assert(holdings@[i as int].wf());
        let price = lookup_or_zero(prices, &h.asset);
        let cv = match h.quantity.checked_mul(&price) {
            Some(x) => x,
            None => {
                assert(spec_value_holding(holdings@[i as int], prices@) is None);
                return None;
            },
        };
        let u = match cv.checked_sub(&h.cost_basis) {
            Some(x) => x,
            None => {
                assert(spec_value_holding(holdings@[i as int], prices@) is None);
                return None;
            },
        };
        out.push(HoldingValue { holding: h, price, current_value: cv, unrealized: u });
        i += 1;
    }
    Some(out)
}

/// The engine event for a library event, field for field; `None` when
/// `chrono` cannot represent one of its instants.
pub fn to_engine(tx: &Tx) -> (r: Option<coinbasis::Transaction>)
    requires
        tx.wf(),
    ensures
        r is Some == tx_representable(*tx),
{
    match tx {
        Tx::Buy { .. } => engine::engine_buy(tx),
        Tx::Sell { .. } => engine::engine_sell(tx),
        Tx::Trade { .. } => engine::engine_trade(tx),
        Tx::Income { .. } => engine::engine_income(tx),
        Tx::Spend { .. } => engine::engine_spend(tx),
        Tx::Transfer { .. } => engine::engine_transfer(tx),
        Tx::GiftSent { .. } => engine::engine_gift_sent(tx),
        Tx::GiftReceived { .. } => engine::engine_gift_received(tx),
    }
}

/// A quantity the engine accepts: above zero.
pub open spec fn positive(d: Dec) -> bool {
    d.mantissa > 0
}

/// A price, value or fee the engine accepts: not below zero.
pub open spec fn non_negative(d: Dec) -> bool {
    d.mantissa >= 0
}

/// The field checks of `Transaction::validate`: every quantity is
/// positive, and every price, value and fee is not negative.
pub open spec fn engine_accepts_tx(tx: Tx) -> bool {
    match tx {
        Tx::Buy { quantity, unit_price, fee, .. } => positive(quantity) && non_negative(unit_price)
            && non_negative(fee),
        Tx::Sell { quantity, unit_price, fee, .. } => positive(quantity) && non_negative(unit_price)
            && non_negative(fee),
        Tx::Trade { from_quantity, to_quantity, value, fee, .. } => positive(from_quantity) && positive(
            to_quantity,
        ) && non_negative(value) && non_negative(fee),
        Tx::Income { quantity, value, .. } => positive(quantity) && non_negative(value),
        Tx::Spend { quantity, value, fee, .. } => positive(quantity) && non_negative(value)
            && non_negative(fee),
        Tx::Transfer { quantity, fee, fee_value, .. } => positive(quantity) && non_negative(fee)
            && non_negative(fee_value),
        Tx::GiftSent { quantity, .. } => positive(quantity),
        Tx::GiftReceived { quantity, donor_basis, fmv_at_receipt, .. } => positive(quantity)
            && non_negative(donor_basis) && non_negative(fmv_at_receipt),
    }
}

/// `Portfolio::from_transactions` accepts the ledger: every event passes
/// its field checks.
pub open spec fn engine_accepts_ledger(s: Seq<Tx>) -> bool {
    forall|i: int| 0 <= i < s.len() ==> #[trigger] engine_accepts_tx(s[i])
}

/// `coinbasis::Portfolio::from_transactions` on the ledger's events, each
/// made by `to_engine` in ledger order: `None` when an instant cannot be
/// represented; otherwise the engine runs `Transaction::validate` on each
/// event and succeeds exactly when every event passes (see
/// `engine_accepts_tx`).
#[verifier::external_body]
fn engine_portfolio(txs: &[Tx]) -> (r: Option<Result<coinbasis::Portfolio, coinbasis::PortfolioError>>)
    requires
        ledger_wf(txs@),
    ensures
        r is Some == ledger_representable(txs@),
        r matches Some(x) ==> (x is Ok == engine_accepts_ledger(txs@)),
{
    let events: Option<Vec<coinbasis::Transaction>> = txs.iter().map(to_engine).collect();
    events.map(|v| coinbasis::Portfolio::from_transactions(&v))
}

impl View for PortfolioModel {
    type V = Seq<TxView>;

    /// The ledger the model was built from.
    closed spec fn view(&self) -> Seq<TxView> {
        ledger_view(self.txs@)
    }
}

/// What `Portfolio::holdings` does for a ledger under a method: `None` when
/// its `Decimal` arithmetic overflows (the engine then panics),
/// `Some(None)` when it reports an error, and `Some(Some(hs))` with the
/// holdings, as library holdings, otherwise.
pub uninterp spec fn engine_holdings_outcome(ledger: Seq<TxView>, m: Method) -> Option<
    Option<Seq<Position>>,
>;

/// What `Portfolio::holdings` reports when it returns; `None` for an error.
pub open spec fn engine_holdings_of(ledger: Seq<TxView>, m: Method) -> Option<Seq<Position>> {
    match engine_holdings_outcome(ledger, m) {
        Some(x) => x,
        None => None,
    }
}

/// What `Portfolio::valuation` does for a ledger under a method at the
/// given prices (a later entry for an asset replacing an earlier one, as a
/// map built by insertion keeps it): `None` when its `Decimal` arithmetic
/// overflows (the engine then panics), `Some(None)` when it reports an
/// error, `Some(Some(v))` with the valuation otherwise.
pub uninterp spec fn engine_valuation_outcome(
    ledger: Seq<TxView>,
    m: Method,
    prices: Seq<(String, Dec)>,
) -> Option<Option<Valuation>>;

/// What `Portfolio::valuation` reports when it returns; `None` for an
/// error.
pub open spec fn engine_valuation_of(ledger: Seq<TxView>, m: Method, prices: Seq<(String, Dec)>) -> Option<
    Valuation,
> {
    match engine_valuation_outcome(ledger, m, prices) {
        Some(x) => x,
        None => None,
    }
}

/// What `Portfolio::realized_gains` does for a ledger under a method:
/// `None` when its `Decimal` arithmetic overflows (the engine then
/// panics), `Some(None)` when it reports an error, `Some(Some(rows))` with
/// the rows, as library rows, otherwise.
pub uninterp spec fn engine_gains_outcome(ledger: Seq<TxView>, m: Method) -> Option<
    Option<Seq<GainRow>>,
>;

/// What `Portfolio::realized_gains` reports when it returns; `None` for an
/// error.
pub open spec fn engine_gains_of(ledger: Seq<TxView>, m: Method) -> Option<Seq<GainRow>> {
    match engine_gains_outcome(ledger, m) {
        Some(x) => x,
        None => None,
    }
}

/// `Portfolio::holdings` on the model's portfolio, which is always the
/// engine portfolio of the model's ledger, on a ledger where the engine's
/// arithmetic does not overflow.
#[verifier::external_body]
fn query_holdings(model: &PortfolioModel, m: Method) -> (r: Result<
    Vec<Position>,
    coinbasis::PortfolioError,
>)
    requires
        engine_holdings_outcome(model@, m) is Some,
    ensures
        match r {
            Ok(v) => engine_holdings_outcome(model@, m) == Some(Some(v@)) && forall|i: int|
                0 <= i < v@.len() ==> #[trigger] v@[i].wf(),
            Err(_) => engine_holdings_outcome(model@, m) == Some(None::<Seq<Position>>),
        },
{
    let hs = model.portfolio.holdings(engine::engine_method(m))?;
    Ok(hs.iter().map(engine::holding_of).collect())
}

/// `Portfolio::valuation` on the model's portfolio at the given prices, on
/// a ledger and prices where the engine's arithmetic does not overflow.
#[verifier::external_body]
fn query_valuation(model: &PortfolioModel, m: Method, prices: &Vec<(String, Dec)>) -> (r: Result<
    Valuation,
    coinbasis::PortfolioError,
>)
    requires
        entries_wf(prices@),
        engine_valuation_outcome(model@, m, prices@) is Some,
    ensures
        match r {
            Ok(v) => engine_valuation_outcome(model@, m, prices@) == Some(Some(v)) && v.wf(),
            Err(_) => engine_valuation_outcome(model@, m, prices@) == Some(None::<Valuation>),
        },
{
    let map: std::collections::HashMap<String, rust_decimal::Decimal> =
        prices.iter().map(|(k, v)| (k.clone(), engine::decimal_of(*v))).collect();
    Ok(engine::report_of(&model.portfolio.valuation(engine::engine_method(m), &map)?))
}

/// `Portfolio::realized_gains` on the model's portfolio, on a ledger where
/// the engine's arithmetic does not overflow.
#[verifier::external_body]
fn query_gains(model: &PortfolioModel, m: Method) -> (r: Result<
    Vec<GainRow>,
    coinbasis::PortfolioError,
>)
    requires
        engine_gains_outcome(model@, m) is Some,
    ensures
        match r {
            Ok(v) => engine_gains_outcome(model@, m) == Some(Some(v@)) && forall|i: int|
                0 <= i < v@.len() ==> #[trigger] v@[i].wf(),
            Err(_) => engine_gains_outcome(model@, m) == Some(None::<Seq<GainRow>>),
        },
{
    let gs = model.portfolio.realized_gains(engine::engine_method(m))?;
    Ok(gs.iter().map(engine::gain_row_of).collect())
}

/// What `Portfolio::capital_gains_report` does for a ledger under a method
/// and calendar year: `None` when its `Decimal` arithmetic overflows (the
/// engine then panics), `Some(None)` when it reports an error,
/// `Some(Some(report))` otherwise.
pub uninterp spec fn engine_capital_gains_outcome(ledger: Seq<TxView>, m: Method, year: i32) -> Option<
    Option<GainsReport>,
>;

/// What `Portfolio::capital_gains_report` reports when it returns; `None`
/// for an error.
pub open spec fn engine_capital_gains_of(ledger: Seq<TxView>, m: Method, year: i32) -> Option<GainsReport> {
    match engine_capital_gains_outcome(ledger, m, year) {
        Some(x) => x,
        None => None,
    }
}

/// What `Portfolio::income_report` gives for a ledger and calendar year:
/// `None` when the income total overflows (the engine then panics).
pub uninterp spec fn engine_income_outcome(ledger: Seq<TxView>, year: i32) -> Option<IncomeStatement>;

/// `Portfolio::capital_gains_report` on the model's portfolio, on a ledger
/// where the engine's arithmetic does not overflow.
#[verifier::external_body]
fn query_capital_gains(model: &PortfolioModel, m: Method, year: i32) -> (r: Result<
    GainsReport,
    coinbasis::PortfolioError,
>)
    requires
        engine_capital_gains_outcome(model@, m, year) is Some,
    ensures
        match r {
            Ok(g) => engine_capital_gains_outcome(model@, m, year) == Some(Some(g)) && g.wf(),
            Err(_) => engine_capital_gains_outcome(model@, m, year) == Some(None::<GainsReport>),
        },
{
    let rep = model.portfolio.capital_gains_report(engine::engine_method(m), year)?;
    Ok(engine::gains_report_of(&rep))
}

/// `Portfolio::income_report` on the model's portfolio, on a ledger whose
/// income total for the year does not overflow.
#[verifier::external_body]
fn query_income(model: &PortfolioModel, year: i32) -> (r: IncomeStatement)
    requires
        engine_income_outcome(model@, year) is Some,
    ensures
        engine_income_outcome(model@, year) == Some(r),
        r.total_income.wf(),
{
    engine::income_statement_of(&model.portfolio.income_report(year))
}

/// Holdings valued at prices, in order; `None` when some value overflows.
pub open spec fn spec_valued(hs: Seq<Position>, prices: Seq<(String, Dec)>) -> Option<Seq<HoldingValue>>
    decreases hs.len(),
{
    if hs.len() == 0 {
        Some(Seq::empty())
    } else {
        match (spec_valued(hs.drop_last(), prices), spec_value_holding(hs.last(), prices)) {
            (Some(v), Some(h)) => Some(v.push(h)),
            _ => None,
        }
    }
}

pub proof fn lemma_spec_valued(hs: Seq<Position>, prices: Seq<(String, Dec)>)
    ensures
        spec_valued(hs, prices) is Some <==> forall|i: int|
            0 <= i < hs.len() ==> (#[trigger] spec_value_holding(hs[i], prices)) is Some,
        spec_valued(hs, prices) matches Some(v) ==> v.len() == hs.len() && forall|i: int|
            0 <= i < hs.len() ==> spec_value_holding(hs[i], prices) == Some(#[trigger] v[i]),
    decreases hs.len(),
{
    if hs.len() > 0 {
        let pre = hs.drop_last();
        lemma_spec_valued(pre, prices);
        assert forall|i: int| 0 <= i < pre.len() implies pre[i] == hs[i] by {}
        if spec_valued(hs, prices) is None && spec_valued(pre, prices) is None {
            let i = choose|i: int|
                0 <= i < pre.len() && (#[trigger] spec_value_holding(pre[i], prices)) is None;
            assert(spec_value_holding(hs[i], prices) is None);
        }
    }
}

impl PortfolioModel {
    /// The model's ledger is within the decimal bounds.
    pub closed spec fn wf(&self) -> bool {
        ledger_wf(self.txs@)
    }

    /// Builds the model, letting the engine validate every event. Fails
    /// with `OutOfRange` exactly when an instant cannot be represented, and
    /// otherwise with the engine's error exactly when some event has a
    /// quantity not above zero or a negative price, value or fee.
    pub fn new(txs: &[Tx]) -> (r: Result<PortfolioModel, AppError>)
        requires
            ledger_wf(txs@),
        ensures
            r is Ok <==> model_builds(txs@),
            r matches Ok(m) ==> m@ == ledger_view(txs@) && m.wf(),
            r matches Err(AppError::OutOfRange(_)) <==> !ledger_representable(txs@),
            r matches Err(AppError::Portfolio(_)) <==> ledger_representable(txs@)
                && !engine_accepts_ledger(txs@),
            r matches Err(e) ==> e is OutOfRange || e is Portfolio,
    {
        match engine_portfolio(txs) {
            None => Err(AppError::OutOfRange("timestamp outside the calendar range".to_string())),
            Some(Ok(portfolio)) => Ok(PortfolioModel { portfolio, txs: copy_ledger(txs) }),
            Some(Err(e)) => Err(AppError::Portfolio(e)),
        }
    }

    /// Open positions per wallet under `method`, as the engine reports them.
    /// The engine panics where its arithmetic overflows; `requires` leaves
    /// those ledgers out.
    pub fn holdings(&self, method: Method) -> (r: Result<Vec<Position>, AppError>)
        requires
            engine_holdings_outcome(self@, method) is Some,
        ensures
            match r {
                Ok(hs) => engine_holdings_of(self@, method) == Some(hs@) && forall|i: int|
                    0 <= i < hs@.len() ==> #[trigger] hs@[i].wf(),
                Err(e) => e is Portfolio && engine_holdings_of(self@, method) is None,
            },
    {
        match query_holdings(self, method) {
            Ok(h) => Ok(h),
            Err(e) => Err(AppError::Portfolio(e)),
        }
    }

    /// The engine's holdings under `method`, each valued at its price in
    /// `prices` (zero when unpriced). Fails with the engine's error when it
    /// cannot report holdings, and with `OutOfRange` when a value overflows.
    pub fn holdings_with_value(&self, method: Method, prices: &Vec<(String, Dec)>) -> (r: Result<
        Vec<HoldingValue>,
        AppError,
    >)
        requires
            entries_wf(prices@),
            engine_holdings_outcome(self@, method) is Some,
        ensures
            match engine_holdings_of(self@, method) {
                None => r matches Err(e) && e is Portfolio,
                Some(hs) => match spec_valued(hs, prices@) {
                    Some(v) => r matches Ok(out) && out@ == v,
                    None => r matches Err(e) && e is OutOfRange,
                },
            },
    {
        let hs = match self.holdings(method) {
            Ok(h) => h,
            Err(e) => {
                return Err(e);
            },
        };
        let ghost hseq = hs@;
        proof {
            lemma_spec_valued(hseq, prices@);
        }
        match value_holdings(hs, prices) {
            Some(v) => {
                assert forall|i: int| 0 <= i < hseq.len() implies (#[trigger] spec_value_holding(
                    hseq[i],
                    prices@,
                )) is Some by {
                    assert(spec_value_holding(hseq[i], prices@) == Some(v@[i]));
                }
                assert(v@ =~= spec_valued(hseq, prices@)->0);
                Ok(v)
            },
            None => Err(AppError::OutOfRange("holding value overflows".to_string())),
        }
    }

    /// Realized-gain rows under `method`, as the engine reports them, on a
    /// ledger where the engine's arithmetic does not overflow.
    pub fn realized_gains(&self, method: Method) -> (r: Result<Vec<GainRow>, AppError>)
        requires
            engine_gains_outcome(self@, method) is Some,
        ensures
            match r {
                Ok(g) => engine_gains_of(self@, method) == Some(g@) && forall|i: int|
                    0 <= i < g@.len() ==> #[trigger] g@[i].wf(),
                Err(e) => e is Portfolio && engine_gains_of(self@, method) is None,
            },
    {
        match query_gains(self, method) {
            Ok(g) => Ok(g),
            Err(e) => Err(AppError::Portfolio(e)),
        }
    }

    /// The engine's capital-gains report for `year` under `method`, on a
    /// ledger where the engine's arithmetic does not overflow.
    pub fn capital_gains(&self, method: Method, year: i32) -> (r: Result<GainsReport, AppError>)
        requires
            engine_capital_gains_outcome(self@, method, year) is Some,
        ensures
            match r {
                Ok(g) => engine_capital_gains_of(self@, method, year) == Some(g) && g.wf(),
                Err(e) => e is Portfolio && engine_capital_gains_of(self@, method, year) is None,
            },
    {
        match query_capital_gains(self, method, year) {
            Ok(g) => Ok(g),
            Err(e) => Err(AppError::Portfolio(e)),
        }
    }

    /// The engine's income statement for `year`, on a ledger whose income
    /// total does not overflow.
    pub fn income(&self, year: i32) -> (r: IncomeStatement)
        requires
            engine_income_outcome(self@, year) is Some,
        ensures
            engine_income_outcome(self@, year) == Some(r),
    {
        query_income(self, year)
    }

    /// The engine's valuation under `method` at `prices`, on a ledger and
    /// prices where the engine's arithmetic does not overflow.
    pub fn valuation(&self, method: Method, prices: &Vec<(String, Dec)>) -> (r: Result<
        Valuation,
        AppError,
    >)
        requires
            entries_wf(prices@),
            engine_valuation_outcome(self@, method, prices@) is Some,
        ensures
            match r {
                Ok(v) => engine_valuation_of(self@, method, prices@) == Some(v) && v.wf(),
                Err(e) => e is Portfolio && engine_valuation_of(self@, method, prices@) is None,
            },
    {
        match query_valuation(self, method, prices) {
            Ok(v) => Ok(v),
            Err(e) => Err(AppError::Portfolio(e)),
        }
    }

    /// The ledger, in input order.
    pub fn transactions(&self) -> (r: &[Tx])
        ensures
            ledger_view(r@) == self@,
            ledger_wf(r@) <== self.wf(),
    {
        self.txs.as_slice()
    }
}

/// Wallet of the first `Buy` of `asset` in the ledger, if any.
pub open spec fn first_buy_wallet(s: Seq<Tx>, asset: Seq<char>) -> Option<Seq<char>>
    decreases s.len(),
{
    if s.len() == 0 {
        None
    } else {
        match s[0] {
            Tx::Buy { asset: a, wallet, .. } if a@ == asset => Some(wallet@),
            _ => first_buy_wallet(s.drop_first(), asset),
        }
    }
}

/// The wallet a hypothetical sale draws from: that of the asset's first
/// `Buy`, else `"estimate"`.
pub open spec fn sale_wallet(s: Seq<Tx>, asset: Seq<char>) -> Seq<char> {
    match first_buy_wallet(s, asset) {
        Some(w) => w,
        None => "estimate"@,
    }
}

/// The wallet a hypothetical sale of `asset` draws from: that of its first
/// `Buy`, else `"estimate"`.
pub fn sell_wallet(txs: &[Tx], asset: &String) -> (r: String)
    ensures
        r@ == sale_wallet(txs@, asset@),
{
    let mut i: usize = 0;
    assert(txs@.skip(0) =~= txs@);
    while i < txs.len()
        invariant
            i <= txs@.len(),
            first_buy_wallet(txs@, asset@) == first_buy_wallet(txs@.skip(i as int), asset@),
        decreases txs@.len() - i,
    {
        assert(txs@.skip(i as int)[0] == txs@[i as int]);
        assert(txs@.skip(i as int).drop_first() =~= txs@.skip(i + 1));
        match &txs[i] {
            Tx::Buy { asset: a, wallet, .. } => {
                if *a == *asset {
                    return wallet.clone();
                }
            },
            _ => {},
        }
        i += 1;
    }
    "estimate".to_string()
}

/// The ledger with a sale of `quantity` of `asset` at `price`, fee-free, at
/// `now` appended.
pub open spec fn with_sale(txs: Seq<Tx>, asset: Seq<char>, quantity: Dec, price: Dec, now: Timestamp) -> Seq<
    TxView,
> {
    ledger_view(txs).push(
        TxView::Sell {
            timestamp: now,
            wallet: sale_wallet(txs, asset),
            asset,
            quantity,
            unit_price: price,
            fee: dec_zero(),
        },
    )
}

/// The realized gains of a list of rows, summed in order.
pub open spec fn gain_total(rows: Seq<GainRow>) -> Option<Dec> {
    checked_sum(rows.map_values(|g: GainRow| g.gain))
}

/// The estimated gain of a sale: the HIFO gain total of the ledger with
/// the sale minus that without it; `None` when the engine reports no gains
/// for either or an amount overflows.
pub open spec fn spec_sell_gain(base: Option<Seq<GainRow>>, with: Option<Seq<GainRow>>) -> Option<Dec> {
    match (base, with) {
        (Some(b), Some(w)) => match (gain_total(w), gain_total(b)) {
            (Some(x), Some(y)) => decimal_sub(x, y),
            _ => None,
        },
        _ => None,
    }
}

/// `PortfolioModel::new` builds a model of the ledger: every instant is
/// representable and the engine accepts every event.
pub open spec fn model_builds(s: Seq<Tx>) -> bool {
    ledger_representable(s) && engine_accepts_ledger(s)
}

/// A fee-free sale of `quantity` at `price` at `now`, appended to a
/// ledger, keeps it buildable: the instant is representable, the quantity
/// is positive and the price not negative.
pub open spec fn sale_fits(quantity: Dec, price: Dec, now: Timestamp) -> bool {
    &&& datetime_exists(now)
    &&& positive(quantity)
    &&& non_negative(price)
}

/// A ledger with one more event builds exactly when the ledger builds and
/// the new event passes every check on its own.
proof fn lemma_builds_push(s: Seq<Tx>, x: Tx)
    ensures
        model_builds(s.push(x)) == (model_builds(s) && tx_representable(x) && engine_accepts_tx(x)),
{
    let t = s.push(x);
    assert(t[s.len() as int] == x);
    assert forall|i: int| 0 <= i < s.len() implies t[i] == s[i] by {}
    if model_builds(t) {
        assert(tx_representable(t[s.len() as int]));
        assert(engine_accepts_tx(t[s.len() as int]));
        assert forall|i: int| 0 <= i < s.len() implies #[trigger] tx_representable(s[i]) by {
            assert(tx_representable(t[i]));
        }
        assert forall|i: int| 0 <= i < s.len() implies #[trigger] engine_accepts_tx(s[i]) by {
            assert(engine_accepts_tx(t[i]));
        }
    }
    if model_builds(s) && tx_representable(x) && engine_accepts_tx(x) {
        assert forall|i: int| 0 <= i < t.len() implies #[trigger] tx_representable(t[i]) by {
            if i < s.len() {
                assert(tx_representable(s[i]));
            }
        }
        assert forall|i: int| 0 <= i < t.len() implies #[trigger] engine_accepts_tx(t[i]) by {
            if i < s.len() {
                assert(engine_accepts_tx(s[i]));
            }
        }
    }
}

/// The estimated realized gain of selling `sell` worth of `asset` at
/// `price` at `now`: zero when the price is zero or the amount is not
/// positive; otherwise the HIFO gain total of the ledger with the sale of
/// `sell / price` appended minus that without it; `None` when the quantity
/// or a total overflows, a model of either ledger cannot be built, or the
/// engine reports no gains for either.
pub open spec fn spec_estimate(txs: Seq<Tx>, asset: Seq<char>, sell: Dec, price: Dec, now: Timestamp) -> Option<
    Dec,
> {
    if price.mantissa == 0 || !dec_lt(dec_zero(), sell) {
        Some(dec_zero())
    } else {
        match decimal_div(sell, price) {
            None => None,
            Some(q) => if model_builds(txs) && sale_fits(q, price, now) {
                spec_sell_gain(
                    engine_gains_of(ledger_view(txs), Method::Hifo),
                    engine_gains_of(with_sale(txs, asset, q, price, now), Method::Hifo),
                )
            } else {
                None
            },
        }
    }
}

/// The engine's arithmetic does not overflow on the HIFO gains the
/// estimate asks it for: those of the ledger (once a model of it builds)
/// and, when those are reported, those of the ledger with the sale.
pub open spec fn estimate_runs(txs: Seq<Tx>, asset: Seq<char>, sell: Dec, price: Dec, now: Timestamp) -> bool {
    price.mantissa == 0 || !dec_lt(dec_zero(), sell) || match decimal_div(sell, price) {
        None => true,
        Some(q) => {
            &&& model_builds(txs) ==> engine_gains_outcome(ledger_view(txs), Method::Hifo) is Some
            &&& (model_builds(txs) && engine_gains_of(ledger_view(txs), Method::Hifo) is Some && sale_fits(
                q,
                price,
                now,
            )) ==> engine_gains_outcome(with_sale(txs, asset, q, price, now), Method::Hifo) is Some
        },
    }
}

/// The gain amounts of the rows, in order.
fn gains_of(rows: &Vec<GainRow>) -> (r: Vec<Dec>)
    requires
        forall|i: int| 0 <= i < rows@.len() ==> #[trigger] rows@[i].wf(),
    ensures
        r@ == rows@.map_values(|g: GainRow| g.gain),
        forall|i: int| 0 <= i < r@.len() ==> #[trigger] r@[i].wf(),
{
    let mut out: Vec<Dec> = Vec::new();
    let mut i: usize = 0;
    while i < rows.len()
        invariant
            i <= rows@.len(),
            forall|k: int| 0 <= k < rows@.len() ==> #[trigger] rows@[k].wf(),
            out@ == rows@.map_values(|g: GainRow| g.gain).take(i as int),
            forall|k: int| 0 <= k < out@.len() ==> #[trigger] out@[k].wf(),
        decreases rows@.len() - i,
    {
        assert(rows@[i as int].wf());
        out.push(rows[i].gain);
        i += 1;
        assert(out@ =~= rows@.map_values(|g: GainRow| g.gain).take(i as int));
        assert forall|k: int| 0 <= k < out@.len() implies #[trigger] out@[k].wf() by {
            assert(out@[k] == rows@[k].gain);
            assert(rows@[k].wf());
        }
    }
    assert(rows@.map_values(|g: GainRow| g.gain).take(rows@.len() as int) =~= rows@.map_values(
        |g: GainRow| g.gain,
    ));
    out
}

/// The realized gain of selling `sell_value_usd` worth of `asset` at
/// `price` and time `now`, drawing lots under HIFO: the engine's total HIFO
/// gain of the ledger with that sale appended (from the wallet of the
/// asset's first buy), minus its total without it. Zero when `price` is
/// zero or `sell_value_usd` is not positive; `OutOfRange` when the sale
/// quantity `sell_value_usd / price` or a total overflows.
pub fn estimate_sell_gain(
    txs: &[Tx],
    asset: &str,
    sell_value_usd: Dec,
    price: Dec,
    now: Timestamp,
) -> (r: Result<Dec, AppError>)
    requires
        ledger_wf(txs@),
        sell_value_usd.wf(),
        price.wf(),
        estimate_runs(txs@, asset@, sell_value_usd, price, now),
    ensures
        (price.mantissa == 0 || !dec_lt(dec_zero(), sell_value_usd)) ==> r == Ok::<Dec, AppError>(
            dec_zero(),
        ),
        r matches Ok(g) ==> spec_estimate(txs@, asset@, sell_value_usd, price, now) == Some(g),
        spec_estimate(txs@, asset@, sell_value_usd, price, now) matches Some(g) ==> r == Ok::<
            Dec,
            AppError,
        >(g),
        spec_estimate(txs@, asset@, sell_value_usd, price, now) is None ==> r is Err,
        (price.mantissa != 0 && dec_lt(dec_zero(), sell_value_usd) && decimal_div(sell_value_usd, price)
            is None) ==> (r matches Err(e) && e is OutOfRange),
        r matches Err(e) ==> e is OutOfRange || e is Portfolio,
        r matches Ok(g) ==> g.wf(),
{
    let zero = Dec::zero();
    if price.is_zero() || !zero.lt(&sell_value_usd) {
        return Ok(zero);
    }
    let quantity = match sell_value_usd.checked_div(&price) {
        Some(q) => q,
        None => {
            return Err(AppError::OutOfRange("sale quantity overflows".to_string()));
        },
    };
    let base = match PortfolioModel::new(txs) {
        Ok(m) => m,
        Err(e) => {
            return Err(e);
        },
    };
    let base_rows = match base.realized_gains(Method::Hifo) {
        Ok(g) => g,
        Err(e) => {
            return Err(e);
        },
    };
    let asset_id = asset.to_string();
    let wallet = sell_wallet(txs, &asset_id);
    let mut hypo = copy_ledger(txs);
    let sale = Tx::Sell {
        timestamp: now,
        wallet,
        asset: asset_id,
        quantity,
        unit_price: price,
        fee: Dec::zero(),
    };
    let ghost sale_view = sale;
    hypo.push(sale);
    assert(ledger_view(hypo@) =~= with_sale(txs@, asset@, quantity, price, now));
    proof {
        assert(hypo@ =~= txs@.push(sale_view));
        lemma_builds_push(txs@, sale_view);
    }
    assert forall|i: int| 0 <= i < hypo@.len() implies #[trigger] hypo@[i].wf() by {
        if i < txs@.len() {
            assert(hypo@[i] == txs@[i]);
        }
    }
    let with = match PortfolioModel::new(hypo.as_slice()) {
        Ok(m) => m,
        Err(e) => {
            return Err(e);
        },
    };
    let with_rows = match with.realized_gains(Method::Hifo) {
        Ok(g) => g,
        Err(e) => {
            return Err(e);
        },
    };
    let with_gains = gains_of(&with_rows);
    let base_gains = gains_of(&base_rows);
    match gain_difference(&with_gains, &base_gains) {
        Some(d) => Ok(d),
        None => Err(AppError::OutOfRange("gain total overflows".to_string())),
    }
}

/// Total of `with` minus total of `base`, each summed left to right;
/// `None` when a sum or the difference overflows.
pub fn gain_difference(with: &Vec<Dec>, base: &Vec<Dec>) -> (r: Option<Dec>)
    requires
        forall|i: int| 0 <= i < with@.len() ==> #[trigger] with@[i].wf(),
        forall|i: int| 0 <= i < base@.len() ==> #[trigger] base@[i].wf(),
    ensures
        r == match (checked_sum(with@), checked_sum(base@)) {
            (Some(a), Some(b)) => decimal_sub(a, b),
            _ => None,
        },
        r matches Some(d) ==> d.wf(),
{
    let a = sum_checked(with)?;
    let b = sum_checked(base)?;
    a.checked_sub(&b)
}

} // verus!
