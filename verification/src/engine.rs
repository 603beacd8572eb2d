//! The boundary with the `coinbasis` cost-basis engine: conversions between
//! the library's plain types and the engine's, and the engine queries.

use vstd::prelude::*;

use crate::dec::Dec;
use crate::model::{
    AssetValue, GainRow, Tx, GainsReport, IncomeKind, IncomeRow, IncomeStatement, Method, Period, Position,
    Valuation,
};
use crate::time::{datetime_exists, Timestamp};

verus! {

#[verifier::external_type_specification]
#[verifier::external_body]
pub struct ExDecimal(rust_decimal::Decimal);

#[verifier::external_type_specification]
#[verifier::external_body]
pub struct ExEngineTransaction(coinbasis::Transaction);

#[verifier::external_type_specification]
#[verifier::external_body]
pub struct ExEnginePortfolio(coinbasis::Portfolio);

#[verifier::external_type_specification]
#[verifier::external_body]
pub struct ExPortfolioError(coinbasis::PortfolioError);

#[verifier::external_type_specification]
#[verifier::external_body]
pub struct ExEngineMethod(coinbasis::CostBasisMethod);

#[verifier::external_type_specification]
#[verifier::external_body]
pub struct ExEngineIncomeSource(coinbasis::IncomeSource);

#[verifier::external_type_specification]
#[verifier::external_body]
pub struct ExRealizedGain(coinbasis::RealizedGain);

#[verifier::external_type_specification]
#[verifier::external_body]
pub struct ExCapitalGainsReport(coinbasis::CapitalGainsReport);

#[verifier::external_type_specification]
#[verifier::external_body]
pub struct ExIncomeReport(coinbasis::IncomeReport);

#[verifier::external_type_specification]
#[verifier::external_body]
pub struct ExEngineReport(coinbasis::PortfolioReport);

#[verifier::external_type_specification]
#[verifier::external_body]
pub struct ExEngineAssetValuation(coinbasis::AssetValuation);

#[verifier::external_type_specification]
#[verifier::external_body]
pub struct ExTaxConfig(coinbasis::TaxConfig);

#[verifier::external_type_specification]
#[verifier::external_body]
pub struct ExEngineHolding(coinbasis::Holding);

#[verifier::external_type_specification]
#[verifier::external_body]
pub struct ExEngineTerm(coinbasis::Term);

#[verifier::external_type_specification]
#[verifier::external_body]
pub struct ExIncomeEvent(coinbasis::IncomeEvent);

/// A `rust_decimal::Decimal` as mantissa and scale
/// (`Decimal::mantissa`, `Decimal::scale`), which are always in bounds.
#[verifier::external_body]
pub(crate) fn dec_of(d: rust_decimal::Decimal) -> (r: Dec)
    ensures
        r.wf(),
{
    Dec { mantissa: d.mantissa(), scale: d.scale() }
}

/// `Decimal::from_i128_with_scale`, which accepts every in-bounds pair.
#[verifier::external_body]
pub(crate) fn decimal_of(d: Dec) -> rust_decimal::Decimal
    requires
        d.wf(),
{
    rust_decimal::Decimal::from_i128_with_scale(d.mantissa, d.scale)
}

/// The engine's method value for a library method.
#[verifier::external_body]
pub(crate) fn engine_method(m: Method) -> coinbasis::CostBasisMethod {
    match m {
        Method::Fifo => coinbasis::CostBasisMethod::Fifo,
        Method::Lifo => coinbasis::CostBasisMethod::Lifo,
        Method::Hifo => coinbasis::CostBasisMethod::Hifo,
        Method::Average => coinbasis::CostBasisMethod::Average,
        Method::SpecificId => coinbasis::CostBasisMethod::SpecificId,
    }
}

/// The engine's income-source value for a library one.
#[verifier::external_body]
pub(crate) fn engine_income_source(s: IncomeKind) -> coinbasis::IncomeSource {
    match s {
        IncomeKind::Staking => coinbasis::IncomeSource::Staking,
        IncomeKind::Mining => coinbasis::IncomeSource::Mining,
        IncomeKind::Airdrop => coinbasis::IncomeSource::Airdrop,
        IncomeKind::Interest => coinbasis::IncomeSource::Interest,
        IncomeKind::Other => coinbasis::IncomeSource::Other,
    }
}

/// `coinbasis::Transaction::Buy` with the fields of a library `Buy`, each
/// carried over as it is; `None` when `chrono` cannot represent the instant.
#[verifier::external_body]
pub(crate) fn engine_buy(tx: &Tx) -> (r: Option<coinbasis::Transaction>)
    requires
        tx is Buy,
        tx.wf(),
    ensures
        r is Some == datetime_exists(tx.spec_time()),
{
    match tx {
        Tx::Buy { timestamp, wallet, asset, quantity, unit_price, fee } => Some(coinbasis::Transaction::Buy {
            timestamp: chrono::DateTime::from_timestamp(timestamp.secs, timestamp.nanos)?,
            wallet: wallet.clone(),
            asset: asset.clone(),
            quantity: decimal_of(*quantity),
            unit_price: decimal_of(*unit_price),
            fee: decimal_of(*fee),
        }),
        _ => None,
    }
}

/// `coinbasis::Transaction::Sell` with the fields of a library `Sell`, each
/// carried over as it is; `None` when `chrono` cannot represent the instant.
#[verifier::external_body]
pub(crate) fn engine_sell(tx: &Tx) -> (r: Option<coinbasis::Transaction>)
    requires
        tx is Sell,
        tx.wf(),
    ensures
        r is Some == datetime_exists(tx.spec_time()),
{
    match tx {
        Tx::Sell { timestamp, wallet, asset, quantity, unit_price, fee } => Some(coinbasis::Transaction::Sell {
            timestamp: chrono::DateTime::from_timestamp(timestamp.secs, timestamp.nanos)?,
            wallet: wallet.clone(),
            asset: asset.clone(),
            quantity: decimal_of(*quantity),
            unit_price: decimal_of(*unit_price),
            fee: decimal_of(*fee),
        }),
        _ => None,
    }
}

/// `coinbasis::Transaction::Trade` with the fields of a library `Trade`,
/// each carried over as it is; `None` when `chrono` cannot represent the
/// instant.
#[verifier::external_body]
pub(crate) fn engine_trade(tx: &Tx) -> (r: Option<coinbasis::Transaction>)
    requires
        tx is Trade,
        tx.wf(),
    ensures
        r is Some == datetime_exists(tx.spec_time()),
{
    match tx {
        Tx::Trade { timestamp, wallet, from_asset, from_quantity, to_asset, to_quantity, value, fee } =>
            Some(coinbasis::Transaction::Trade {
            timestamp: chrono::DateTime::from_timestamp(timestamp.secs, timestamp.nanos)?,
            wallet: wallet.clone(),
            from_asset: from_asset.clone(),
            from_quantity: decimal_of(*from_quantity),
            to_asset: to_asset.clone(),
            to_quantity: decimal_of(*to_quantity),
            value: decimal_of(*value),
            fee: decimal_of(*fee),
        }),
        _ => None,
    }
}

/// `coinbasis::Transaction::Income` with the fields of a library `Income`,
/// each carried over as it is; `None` when `chrono` cannot represent the
/// instant.
#[verifier::external_body]
pub(crate) fn engine_income(tx: &Tx) -> (r: Option<coinbasis::Transaction>)
    requires
        tx is Income,
        tx.wf(),
    ensures
        r is Some == datetime_exists(tx.spec_time()),
{
    match tx {
        Tx::Income { timestamp, wallet, asset, quantity, value, source } => Some(coinbasis::Transaction::Income {
            timestamp: chrono::DateTime::from_timestamp(timestamp.secs, timestamp.nanos)?,
            wallet: wallet.clone(),
            asset: asset.clone(),
            quantity: decimal_of(*quantity),
            value: decimal_of(*value),
            source: engine_income_source(*source),
        }),
        _ => None,
    }
}

/// `coinbasis::Transaction::Spend` with the fields of a library `Spend`,
/// each carried over as it is; `None` when `chrono` cannot represent the
/// instant.
#[verifier::external_body]
pub(crate) fn engine_spend(tx: &Tx) -> (r: Option<coinbasis::Transaction>)
    requires
        tx is Spend,
        tx.wf(),
    ensures
        r is Some == datetime_exists(tx.spec_time()),
{
    match tx {
        Tx::Spend { timestamp, wallet, asset, quantity, value, fee } => Some(coinbasis::Transaction::Spend {
            timestamp: chrono::DateTime::from_timestamp(timestamp.secs, timestamp.nanos)?,
            wallet: wallet.clone(),
            asset: asset.clone(),
            quantity: decimal_of(*quantity),
            value: decimal_of(*value),
            fee: decimal_of(*fee),
        }),
        _ => None,
    }
}

/// `coinbasis::Transaction::Transfer` with the fields of a library
/// `Transfer`, each carried over as it is; `None` when `chrono` cannot
/// represent the instant.
#[verifier::external_body]
pub(crate) fn engine_transfer(tx: &Tx) -> (r: Option<coinbasis::Transaction>)
    requires
        tx is Transfer,
        tx.wf(),
    ensures
        r is Some == datetime_exists(tx.spec_time()),
{
    match tx {
        Tx::Transfer { timestamp, asset, quantity, from_wallet, to_wallet, fee, fee_value } =>
            Some(coinbasis::Transaction::Transfer {
            timestamp: chrono::DateTime::from_timestamp(timestamp.secs, timestamp.nanos)?,
            asset: asset.clone(),
            quantity: decimal_of(*quantity),
            from_wallet: from_wallet.clone(),
            to_wallet: to_wallet.clone(),
            fee: decimal_of(*fee),
            fee_value: decimal_of(*fee_value),
        }),
        _ => None,
    }
}

/// `coinbasis::Transaction::GiftSent` with the fields of a library
/// `GiftSent`, each carried over as it is; `None` when `chrono` cannot
/// represent the instant.
#[verifier::external_body]
pub(crate) fn engine_gift_sent(tx: &Tx) -> (r: Option<coinbasis::Transaction>)
    requires
        tx is GiftSent,
        tx.wf(),
    ensures
        r is Some == datetime_exists(tx.spec_time()),
{
    match tx {
        Tx::GiftSent { timestamp, wallet, asset, quantity } => Some(coinbasis::Transaction::GiftSent {
            timestamp: chrono::DateTime::from_timestamp(timestamp.secs, timestamp.nanos)?,
            wallet: wallet.clone(),
            asset: asset.clone(),
            quantity: decimal_of(*quantity),
        }),
        _ => None,
    }
}

/// `coinbasis::Transaction::GiftReceived` with the fields of a library
/// `GiftReceived`, each carried over as it is; `None` when `chrono` cannot
/// represent one of the two instants.
#[verifier::external_body]
pub(crate) fn engine_gift_received(tx: &Tx) -> (r: Option<coinbasis::Transaction>)
    requires
        tx is GiftReceived,
        tx.wf(),
    ensures
        r is Some == (datetime_exists(tx.spec_time()) && datetime_exists(tx->donor_acquired_at)),
{
    match tx {
        Tx::GiftReceived { timestamp, wallet, asset, quantity, donor_basis, fmv_at_receipt, donor_acquired_at } =>
            Some(coinbasis::Transaction::GiftReceived {
            timestamp: chrono::DateTime::from_timestamp(timestamp.secs, timestamp.nanos)?,
            wallet: wallet.clone(),
            asset: asset.clone(),
            quantity: decimal_of(*quantity),
            donor_basis: decimal_of(*donor_basis),
            fmv_at_receipt: decimal_of(*fmv_at_receipt),
            donor_acquired_at: chrono::DateTime::from_timestamp(donor_acquired_at.secs, donor_acquired_at.nanos)?,
        }),
        _ => None,
    }
}

/// One engine holding as a library one (`quantity`, `cost_basis` and
/// `average_cost` as mantissa and scale).
#[verifier::external_body]
pub(crate) fn holding_of(h: &coinbasis::Holding) -> (r: Position)
    ensures
        r.wf(),
{
    Position {
        asset: h.asset.clone(),
        wallet: h.wallet.clone(),
        quantity: dec_of(h.quantity),
        cost_basis: dec_of(h.cost_basis),
        average_cost: dec_of(h.average_cost),
    }
}

/// One engine asset valuation as a library one.
#[verifier::external_body]
pub(crate) fn asset_valuation_of(a: &coinbasis::AssetValuation) -> (r: AssetValue)
    ensures
        r.wf(),
{
    AssetValue {
        asset: a.asset.clone(),
        quantity: dec_of(a.quantity),
        cost_basis: dec_of(a.cost_basis),
        price: dec_of(a.price),
        market_value: dec_of(a.market_value),
        unrealized: dec_of(a.unrealized),
        allocation: dec_of(a.allocation),
    }
}

/// An engine valuation report as a library one.
#[verifier::external_body]
pub(crate) fn report_of(r: &coinbasis::PortfolioReport) -> (out: Valuation)
    ensures
        out.wf(),
{
    Valuation {
        assets: r.assets.iter().map(asset_valuation_of).collect(),
        total_cost: dec_of(r.total_cost),
        total_value: dec_of(r.total_value),
        total_unrealized: dec_of(r.total_unrealized),
        total_return: dec_of(r.total_return),
        missing_prices: r.missing_prices.clone(),
    }
}

/// The engine's holding period as the library's.
#[verifier::external_body]
pub(crate) fn term_of(t: &coinbasis::Term) -> Period {
    match t {
        coinbasis::Term::Short => Period::Short,
        coinbasis::Term::Long => Period::Long,
    }
}

/// One engine realized-gain row as a library one. Its instants come from
/// `DateTime<Utc>` values, so `chrono` represents them.
#[verifier::external_body]
pub(crate) fn gain_row_of(g: &coinbasis::RealizedGain) -> (r: GainRow)
    ensures
        r.wf(),
{
    GainRow {
        asset: g.asset.clone(),
        wallet: g.wallet.clone(),
        disposed_at: Timestamp { secs: g.disposed_at.timestamp(), nanos: g.disposed_at.timestamp_subsec_nanos() },
        acquired_at: g.acquired_at.map(|d| Timestamp { secs: d.timestamp(), nanos: d.timestamp_subsec_nanos() }),
        quantity: dec_of(g.quantity),
        proceeds: dec_of(g.proceeds),
        cost_basis: dec_of(g.cost_basis),
        gain: dec_of(g.gain),
        term: g.term.as_ref().map(term_of),
    }
}

/// An engine capital-gains report as a library one.
#[verifier::external_body]
pub(crate) fn gains_report_of(r: &coinbasis::CapitalGainsReport) -> (out: GainsReport)
    ensures
        out.wf(),
{
    GainsReport {
        tax_year: r.tax_year,
        rows: r.rows.iter().map(gain_row_of).collect(),
        short_term_gain: dec_of(r.short_term_gain),
        long_term_gain: dec_of(r.long_term_gain),
        total_gain: dec_of(r.total_gain),
    }
}

/// The engine's income source as the library's.
#[verifier::external_body]
pub(crate) fn income_kind_of(s: &coinbasis::IncomeSource) -> IncomeKind {
    match s {
        coinbasis::IncomeSource::Staking => IncomeKind::Staking,
        coinbasis::IncomeSource::Mining => IncomeKind::Mining,
        coinbasis::IncomeSource::Airdrop => IncomeKind::Airdrop,
        coinbasis::IncomeSource::Interest => IncomeKind::Interest,
        coinbasis::IncomeSource::Other => IncomeKind::Other,
    }
}

/// One engine income event as a library row.
#[verifier::external_body]
pub(crate) fn income_row_of(e: &coinbasis::IncomeEvent) -> IncomeRow {
    IncomeRow {
        asset: e.asset.clone(),
        wallet: e.wallet.clone(),
        received_at: Timestamp { secs: e.received_at.timestamp(), nanos: e.received_at.timestamp_subsec_nanos() },
        quantity: dec_of(e.quantity),
        value: dec_of(e.value),
        source: income_kind_of(&e.source),
    }
}

/// An engine income report as a library statement.
#[verifier::external_body]
pub(crate) fn income_statement_of(r: &coinbasis::IncomeReport) -> (out: IncomeStatement)
    ensures
        out.total_income.wf(),
{
    IncomeStatement {
        tax_year: r.tax_year,
        events: r.events.iter().map(income_row_of).collect(),
        total_income: dec_of(r.total_income),
    }
}

} // verus!
