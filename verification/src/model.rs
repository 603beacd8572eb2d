//! The ledger and report types the library reasons about: the events fed to
//! the cost-basis engine and the values it reports, as plain data.

use vstd::prelude::*;

use crate::dec::{dec_eq, Dec};
use crate::time::{datetime_exists, Timestamp};

verus! {

/// How disposals are matched against open lots.
#[derive(Clone, Copy, Debug, PartialEq, Eq, Structural)]
pub enum Method {
    Fifo,
    Lifo,
    Hifo,
    Average,
    SpecificId,
}

/// The kind of an ordinary-income receipt.
#[derive(Clone, Copy, Debug, PartialEq, Eq, Structural)]
pub enum IncomeKind {
    Staking,
    Mining,
    Airdrop,
    Interest,
    Other,
}

/// Capital-gain holding period.
#[derive(Clone, Copy, Debug, PartialEq, Eq, Structural)]
pub enum Period {
    Short,
    Long,
}

/// One ledger event (amounts in the quote currency, USD by convention).
#[derive(Clone, Debug)]
pub enum Tx {
    Buy {
        timestamp: Timestamp,
        wallet: String,
        asset: String,
        quantity: Dec,
        unit_price: Dec,
        fee: Dec,
    },
    Sell {
        timestamp: Timestamp,
        wallet: String,
        asset: String,
        quantity: Dec,
        unit_price: Dec,
        fee: Dec,
    },
    Trade {
        timestamp: Timestamp,
        wallet: String,
        from_asset: String,
        from_quantity: Dec,
        to_asset: String,
        to_quantity: Dec,
        value: Dec,
        fee: Dec,
    },
    Income {
        timestamp: Timestamp,
        wallet: String,
        asset: String,
        quantity: Dec,
        value: Dec,
        source: IncomeKind,
    },
    Spend {
        timestamp: Timestamp,
        wallet: String,
        asset: String,
        quantity: Dec,
        value: Dec,
        fee: Dec,
    },
    Transfer {
        timestamp: Timestamp,
        asset: String,
        quantity: Dec,
        from_wallet: String,
        to_wallet: String,
        fee: Dec,
        fee_value: Dec,
    },
    GiftSent {
        timestamp: Timestamp,
        wallet: String,
        asset: String,
        quantity: Dec,
    },
    GiftReceived {
        timestamp: Timestamp,
        wallet: String,
        asset: String,
        quantity: Dec,
        donor_basis: Dec,
        fmv_at_receipt: Dec,
        donor_acquired_at: Timestamp,
    },
}

/// A current open position within one wallet.
#[derive(Clone, Debug)]
pub struct Position {
    pub asset: String,
    pub wallet: String,
    pub quantity: Dec,
    pub cost_basis: Dec,
    pub average_cost: Dec,
}

/// Valuation of one asset aggregated across wallets.
#[derive(Clone, Debug)]
pub struct AssetValue {
    pub asset: String,
    pub quantity: Dec,
    pub cost_basis: Dec,
    pub price: Dec,
    pub market_value: Dec,
    pub unrealized: Dec,
    pub allocation: Dec,
}

/// One disposal's realized gain: what was sold, from which wallet, when it
/// was disposed of and (if known) acquired, the amounts, and the holding
/// period.
#[derive(Clone, Debug)]
pub struct GainRow {
    pub asset: String,
    pub wallet: String,
    pub disposed_at: Timestamp,
    pub acquired_at: Option<Timestamp>,
    pub quantity: Dec,
    pub proceeds: Dec,
    pub cost_basis: Dec,
    pub gain: Dec,
    pub term: Option<Period>,
}

/// The realized gains of one calendar tax year: the rows disposed of in
/// that year and their short-term, long-term and total gain.
#[derive(Clone, Debug)]
pub struct GainsReport {
    pub tax_year: i32,
    pub rows: Vec<GainRow>,
    pub short_term_gain: Dec,
    pub long_term_gain: Dec,
    pub total_gain: Dec,
}

/// One ordinary-income receipt.
#[derive(Clone, Debug)]
pub struct IncomeRow {
    pub asset: String,
    pub wallet: String,
    pub received_at: Timestamp,
    pub quantity: Dec,
    pub value: Dec,
    pub source: IncomeKind,
}

/// The ordinary income of one calendar tax year and its total.
#[derive(Clone, Debug)]
pub struct IncomeStatement {
    pub tax_year: i32,
    pub events: Vec<IncomeRow>,
    pub total_income: Dec,
}

/// Whole-portfolio valuation at supplied prices.
#[derive(Clone, Debug)]
pub struct Valuation {
    pub assets: Vec<AssetValue>,
    pub total_cost: Dec,
    pub total_value: Dec,
    pub total_unrealized: Dec,
    pub total_return: Dec,
    pub missing_prices: Vec<String>,
}

impl Tx {
    /// Every amount is within the decimal bounds.
    pub open spec fn wf(&self) -> bool {
        match *self {
            Tx::Buy { quantity, unit_price, fee, .. } => quantity.wf() && unit_price.wf()
                && fee.wf(),
            Tx::Sell { quantity, unit_price, fee, .. } => quantity.wf()
                && unit_price.wf() && fee.wf(),
            Tx::Trade { from_quantity, to_quantity, value, fee, .. } => from_quantity.wf()
                && to_quantity.wf() && value.wf() && fee.wf(),
            Tx::Income { quantity, value, .. } => quantity.wf() && value.wf(),
            Tx::Spend { quantity, value, fee, .. } => quantity.wf() && value.wf()
                && fee.wf(),
            Tx::Transfer { quantity, fee, fee_value, .. } => quantity.wf() && fee.wf()
                && fee_value.wf(),
            Tx::GiftSent { quantity, .. } => quantity.wf(),
            Tx::GiftReceived { quantity, donor_basis, fmv_at_receipt, .. } =>
                quantity.wf() && donor_basis.wf() && fmv_at_receipt.wf(),
        }
    }

    /// The event's time.
    pub open spec fn spec_time(&self) -> Timestamp {
        match *self {
            Tx::Buy { timestamp, .. } => timestamp,
            Tx::Sell { timestamp, .. } => timestamp,
            Tx::Trade { timestamp, .. } => timestamp,
            Tx::Income { timestamp, .. } => timestamp,
            Tx::Spend { timestamp, .. } => timestamp,
            Tx::Transfer { timestamp, .. } => timestamp,
            Tx::GiftSent { timestamp, .. } => timestamp,
            Tx::GiftReceived { timestamp, .. } => timestamp,
        }
    }

    /// The event's time.
    pub fn timestamp(&self) -> (r: Timestamp)
        ensures
            r == self.spec_time(),
    {
        match self {
            Tx::Buy { timestamp, .. } => *timestamp,
            Tx::Sell { timestamp, .. } => *timestamp,
            Tx::Trade { timestamp, .. } => *timestamp,
            Tx::Income { timestamp, .. } => *timestamp,
            Tx::Spend { timestamp, .. } => *timestamp,
            Tx::Transfer { timestamp, .. } => *timestamp,
            Tx::GiftSent { timestamp, .. } => *timestamp,
            Tx::GiftReceived { timestamp, .. } => *timestamp,
        }
    }

    /// The asset ids the event touches (both legs of a trade).
    pub open spec fn spec_assets(&self) -> Seq<Seq<char>> {
        match self {
            Tx::Buy { asset, .. } => seq![asset@],
            Tx::Sell { asset, .. } => seq![asset@],
            Tx::Trade { from_asset, to_asset, .. } => seq![from_asset@, to_asset@],
            Tx::Income { asset, .. } => seq![asset@],
            Tx::Spend { asset, .. } => seq![asset@],
            Tx::Transfer { asset, .. } => seq![asset@],
            Tx::GiftSent { asset, .. } => seq![asset@],
            Tx::GiftReceived { asset, .. } => seq![asset@],
        }
    }
}

impl Position {
    pub open spec fn wf(&self) -> bool {
        self.quantity.wf() && self.cost_basis.wf() && self.average_cost.wf()
    }
}

impl AssetValue {
    pub open spec fn wf(&self) -> bool {
        &&& self.quantity.wf()
        &&& self.cost_basis.wf()
        &&& self.price.wf()
        &&& self.market_value.wf()
        &&& self.unrealized.wf()
        &&& self.allocation.wf()
    }
}

impl GainRow {
    /// Amounts within the decimal bounds, and instants `chrono` represents
    /// (as every row the engine reports has).
    pub open spec fn wf(&self) -> bool {
        &&& datetime_exists(self.disposed_at)
        &&& (self.acquired_at matches Some(a) ==> datetime_exists(a))
        &&& self.quantity.wf()
        &&& self.proceeds.wf()
        &&& self.cost_basis.wf()
        &&& self.gain.wf()
    }
}

impl GainsReport {
    pub open spec fn wf(&self) -> bool {
        &&& forall|i: int| 0 <= i < self.rows@.len() ==> #[trigger] self.rows@[i].wf()
        &&& self.short_term_gain.wf()
        &&& self.long_term_gain.wf()
        &&& self.total_gain.wf()
    }
}

impl Valuation {
    pub open spec fn wf(&self) -> bool {
        &&& forall|i: int| 0 <= i < self.assets@.len() ==> #[trigger] self.assets@[i].wf()
        &&& self.total_cost.wf()
        &&& self.total_value.wf()
        &&& self.total_unrealized.wf()
        &&& self.total_return.wf()
    }
}

impl Tx {
    /// Whether every amount is within the decimal bounds.
    pub fn in_bounds(&self) -> (r: bool)
        ensures
            r == self.wf(),
    {
        match self {
            Tx::Buy { quantity, unit_price, fee, .. } => quantity.in_bounds() && unit_price.in_bounds()
                && fee.in_bounds(),
            Tx::Sell { quantity, unit_price, fee, .. } => quantity.in_bounds()
                && unit_price.in_bounds() && fee.in_bounds(),
            Tx::Trade { from_quantity, to_quantity, value, fee, .. } => from_quantity.in_bounds()
                && to_quantity.in_bounds() && value.in_bounds() && fee.in_bounds(),
            Tx::Income { quantity, value, .. } => quantity.in_bounds() && value.in_bounds(),
            Tx::Spend { quantity, value, fee, .. } => quantity.in_bounds() && value.in_bounds()
                && fee.in_bounds(),
            Tx::Transfer { quantity, fee, fee_value, .. } => quantity.in_bounds() && fee.in_bounds()
                && fee_value.in_bounds(),
            Tx::GiftSent { quantity, .. } => quantity.in_bounds(),
            Tx::GiftReceived { quantity, donor_basis, fmv_at_receipt, .. } => quantity.in_bounds()
                && donor_basis.in_bounds() && fmv_at_receipt.in_bounds(),
        }
    }

    /// A field-by-field copy.
    pub fn duplicate(&self) -> (r: Tx)
        ensures
            r == *self,
    {
        match self {
            Tx::Buy { timestamp, wallet, asset, quantity, unit_price, fee } => Tx::Buy {
                timestamp: *timestamp,
                wallet: wallet.clone(),
                asset: asset.clone(),
                quantity: *quantity,
                unit_price: *unit_price,
                fee: *fee,
            },
            Tx::Sell { timestamp, wallet, asset, quantity, unit_price, fee } => Tx::Sell {
                timestamp: *timestamp,
                wallet: wallet.clone(),
                asset: asset.clone(),
                quantity: *quantity,
                unit_price: *unit_price,
                fee: *fee,
            },
            Tx::Trade {
                timestamp,
                wallet,
                from_asset,
                from_quantity,
                to_asset,
                to_quantity,
                value,
                fee,
            } => Tx::Trade {
                timestamp: *timestamp,
                wallet: wallet.clone(),
                from_asset: from_asset.clone(),
                from_quantity: *from_quantity,
                to_asset: to_asset.clone(),
                to_quantity: *to_quantity,
                value: *value,
                fee: *fee,
            },
            Tx::Income { timestamp, wallet, asset, quantity, value, source } => Tx::Income {
                timestamp: *timestamp,
                wallet: wallet.clone(),
                asset: asset.clone(),
                quantity: *quantity,
                value: *value,
                source: *source,
            },
            Tx::Spend { timestamp, wallet, asset, quantity, value, fee } => Tx::Spend {
                timestamp: *timestamp,
                wallet: wallet.clone(),
                asset: asset.clone(),
                quantity: *quantity,
                value: *value,
                fee: *fee,
            },
            Tx::Transfer { timestamp, asset, quantity, from_wallet, to_wallet, fee, fee_value } =>
                Tx::Transfer {
                timestamp: *timestamp,
                asset: asset.clone(),
                quantity: *quantity,
                from_wallet: from_wallet.clone(),
                to_wallet: to_wallet.clone(),
                fee: *fee,
                fee_value: *fee_value,
            },
            Tx::GiftSent { timestamp, wallet, asset, quantity } => Tx::GiftSent {
                timestamp: *timestamp,
                wallet: wallet.clone(),
                asset: asset.clone(),
                quantity: *quantity,
            },
            Tx::GiftReceived {
                timestamp,
                wallet,
                asset,
                quantity,
                donor_basis,
                fmv_at_receipt,
                donor_acquired_at,
            } => Tx::GiftReceived {
                timestamp: *timestamp,
                wallet: wallet.clone(),
                asset: asset.clone(),
                quantity: *quantity,
                donor_basis: *donor_basis,
                fmv_at_receipt: *fmv_at_receipt,
                donor_acquired_at: *donor_acquired_at,
            },
        }
    }
}

/// A copy of a ledger, event by event.
pub fn copy_ledger(txs: &[Tx]) -> (r: Vec<Tx>)
    ensures
        r@ == txs@,
{
    let mut out: Vec<Tx> = Vec::new();
    let mut i: usize = 0;
    while i < txs.len()
        invariant
            i <= txs@.len(),
            out@ == txs@.take(i as int),
        decreases txs@.len() - i,
    {
        out.push(txs[i].duplicate());
        i += 1;
        assert(out@ =~= txs@.take(i as int));
    }
    assert(txs@.take(txs@.len() as int) =~= txs@);
    out
}

impl Position {
    /// A field-by-field copy.
    pub fn duplicate(&self) -> (r: Position)
        ensures
            r == *self,
    {
        Position {
            asset: self.asset.clone(),
            wallet: self.wallet.clone(),
            quantity: self.quantity,
            cost_basis: self.cost_basis,
            average_cost: self.average_cost,
        }
    }
}

impl AssetValue {
    /// A field-by-field copy.
    pub fn duplicate(&self) -> (r: AssetValue)
        ensures
            r == *self,
    {
        AssetValue {
            asset: self.asset.clone(),
            quantity: self.quantity,
            cost_basis: self.cost_basis,
            price: self.price,
            market_value: self.market_value,
            unrealized: self.unrealized,
            allocation: self.allocation,
        }
    }
}

/// A ledger event with its texts as character sequences.
pub enum TxView {
    Buy { timestamp: Timestamp, wallet: Seq<char>, asset: Seq<char>, quantity: Dec, unit_price: Dec, fee: Dec },
    Sell { timestamp: Timestamp, wallet: Seq<char>, asset: Seq<char>, quantity: Dec, unit_price: Dec, fee: Dec },
    Trade {
        timestamp: Timestamp,
        wallet: Seq<char>,
        from_asset: Seq<char>,
        from_quantity: Dec,
        to_asset: Seq<char>,
        to_quantity: Dec,
        value: Dec,
        fee: Dec,
    },
    Income { timestamp: Timestamp, wallet: Seq<char>, asset: Seq<char>, quantity: Dec, value: Dec, source: IncomeKind },
    Spend { timestamp: Timestamp, wallet: Seq<char>, asset: Seq<char>, quantity: Dec, value: Dec, fee: Dec },
    Transfer {
        timestamp: Timestamp,
        asset: Seq<char>,
        quantity: Dec,
        from_wallet: Seq<char>,
        to_wallet: Seq<char>,
        fee: Dec,
        fee_value: Dec,
    },
    GiftSent { timestamp: Timestamp, wallet: Seq<char>, asset: Seq<char>, quantity: Dec },
    GiftReceived {
        timestamp: Timestamp,
        wallet: Seq<char>,
        asset: Seq<char>,
        quantity: Dec,
        donor_basis: Dec,
        fmv_at_receipt: Dec,
        donor_acquired_at: Timestamp,
    },
}

impl View for Tx {
    type V = TxView;

    open spec fn view(&self) -> TxView {
        match *self {
            Tx::Buy { timestamp, wallet, asset, quantity, unit_price, fee } => TxView::Buy {
                timestamp,
                wallet: wallet@,
                asset: asset@,
                quantity,
                unit_price,
                fee,
            },
            Tx::Sell { timestamp, wallet, asset, quantity, unit_price, fee } => TxView::Sell {
                timestamp,
                wallet: wallet@,
                asset: asset@,
                quantity,
                unit_price,
                fee,
            },
            Tx::Trade {
                timestamp,
                wallet,
                from_asset,
                from_quantity,
                to_asset,
                to_quantity,
                value,
                fee,
            } => TxView::Trade {
                timestamp,
                wallet: wallet@,
                from_asset: from_asset@,
                from_quantity,
                to_asset: to_asset@,
                to_quantity,
                value,
                fee,
            },
            Tx::Income { timestamp, wallet, asset, quantity, value, source } => TxView::Income {
                timestamp,
                wallet: wallet@,
                asset: asset@,
                quantity,
                value,
                source,
            },
            Tx::Spend { timestamp, wallet, asset, quantity, value, fee } => TxView::Spend {
                timestamp,
                wallet: wallet@,
                asset: asset@,
                quantity,
                value,
                fee,
            },
            Tx::Transfer { timestamp, asset, quantity, from_wallet, to_wallet, fee, fee_value } =>
                TxView::Transfer {
                timestamp,
                asset: asset@,
                quantity,
                from_wallet: from_wallet@,
                to_wallet: to_wallet@,
                fee,
                fee_value,
            },
            Tx::GiftSent { timestamp, wallet, asset, quantity } => TxView::GiftSent {
                timestamp,
                wallet: wallet@,
                asset: asset@,
                quantity,
            },
            Tx::GiftReceived {
                timestamp,
                wallet,
                asset,
                quantity,
                donor_basis,
                fmv_at_receipt,
                donor_acquired_at,
            } => TxView::GiftReceived {
                timestamp,
                wallet: wallet@,
                asset: asset@,
                quantity,
                donor_basis,
                fmv_at_receipt,
                donor_acquired_at,
            },
        }
    }
}

/// The ledger as views.
pub open spec fn ledger_view(s: Seq<Tx>) -> Seq<TxView> {
    s.map_values(|t: Tx| t@)
}

/// Equality of two events as the engine's `Transaction` compares them:
/// same kind, equal texts and instants, numerically equal amounts.
pub open spec fn tx_equal(a: TxView, b: TxView) -> bool {
    match (a, b) {
        (
            TxView::Buy { timestamp: t1, wallet: w1, asset: a1, quantity: q1, unit_price: p1, fee: f1 },
            TxView::Buy { timestamp: t2, wallet: w2, asset: a2, quantity: q2, unit_price: p2, fee: f2 },
        ) => t1 == t2 && w1 == w2 && a1 == a2 && dec_eq(q1, q2) && dec_eq(p1, p2) && dec_eq(f1, f2),
        (
            TxView::Sell { timestamp: t1, wallet: w1, asset: a1, quantity: q1, unit_price: p1, fee: f1 },
            TxView::Sell { timestamp: t2, wallet: w2, asset: a2, quantity: q2, unit_price: p2, fee: f2 },
        ) => t1 == t2 && w1 == w2 && a1 == a2 && dec_eq(q1, q2) && dec_eq(p1, p2) && dec_eq(f1, f2),
        (
            TxView::Trade {
                timestamp: t1,
                wallet: w1,
                from_asset: fa1,
                from_quantity: fq1,
                to_asset: ta1,
                to_quantity: tq1,
                value: v1,
                fee: f1,
            },
            TxView::Trade {
                timestamp: t2,
                wallet: w2,
                from_asset: fa2,
                from_quantity: fq2,
                to_asset: ta2,
                to_quantity: tq2,
                value: v2,
                fee: f2,
            },
        ) => t1 == t2 && w1 == w2 && fa1 == fa2 && dec_eq(fq1, fq2) && ta1 == ta2 && dec_eq(tq1, tq2)
            && dec_eq(v1, v2) && dec_eq(f1, f2),
        (
            TxView::Income { timestamp: t1, wallet: w1, asset: a1, quantity: q1, value: v1, source: s1 },
            TxView::Income { timestamp: t2, wallet: w2, asset: a2, quantity: q2, value: v2, source: s2 },
        ) => t1 == t2 && w1 == w2 && a1 == a2 && dec_eq(q1, q2) && dec_eq(v1, v2) && s1 == s2,
        (
            TxView::Spend { timestamp: t1, wallet: w1, asset: a1, quantity: q1, value: v1, fee: f1 },
            TxView::Spend { timestamp: t2, wallet: w2, asset: a2, quantity: q2, value: v2, fee: f2 },
        ) => t1 == t2 && w1 == w2 && a1 == a2 && dec_eq(q1, q2) && dec_eq(v1, v2) && dec_eq(f1, f2),
        (
            TxView::Transfer {
                timestamp: t1,
                asset: a1,
                quantity: q1,
                from_wallet: fw1,
                to_wallet: tw1,
                fee: f1,
                fee_value: fv1,
            },
            TxView::Transfer {
                timestamp: t2,
                asset: a2,
                quantity: q2,
                from_wallet: fw2,
                to_wallet: tw2,
                fee: f2,
                fee_value: fv2,
            },
        ) => t1 == t2 && a1 == a2 && dec_eq(q1, q2) && fw1 == fw2 && tw1 == tw2 && dec_eq(f1, f2)
            && dec_eq(fv1, fv2),
        (
            TxView::GiftSent { timestamp: t1, wallet: w1, asset: a1, quantity: q1 },
            TxView::GiftSent { timestamp: t2, wallet: w2, asset: a2, quantity: q2 },
        ) => t1 == t2 && w1 == w2 && a1 == a2 && dec_eq(q1, q2),
        (
            TxView::GiftReceived {
                timestamp: t1,
                wallet: w1,
                asset: a1,
                quantity: q1,
                donor_basis: b1,
                fmv_at_receipt: m1,
                donor_acquired_at: d1,
            },
            TxView::GiftReceived {
                timestamp: t2,
                wallet: w2,
                asset: a2,
                quantity: q2,
                donor_basis: b2,
                fmv_at_receipt: m2,
                donor_acquired_at: d2,
            },
        ) => t1 == t2 && w1 == w2 && a1 == a2 && dec_eq(q1, q2) && dec_eq(b1, b2) && dec_eq(m1, m2)
            && d1 == d2,
        _ => false,
    }
}

/// Which of the eight kinds an event is.
pub open spec fn view_kind(v: TxView) -> int {
    match v {
        TxView::Buy { .. } => 0,
        TxView::Sell { .. } => 1,
        TxView::Trade { .. } => 2,
        TxView::Income { .. } => 3,
        TxView::Spend { .. } => 4,
        TxView::Transfer { .. } => 5,
        TxView::GiftSent { .. } => 6,
        TxView::GiftReceived { .. } => 7,
    }
}

/// Every text field of an event (wallets and assets), in declaration order.
pub open spec fn view_texts(v: TxView) -> Seq<Seq<char>> {
    match v {
        TxView::Buy { wallet, asset, .. } => seq![wallet, asset],
        TxView::Sell { wallet, asset, .. } => seq![wallet, asset],
        TxView::Trade { wallet, from_asset, to_asset, .. } => seq![wallet, from_asset, to_asset],
        TxView::Income { wallet, asset, .. } => seq![wallet, asset],
        TxView::Spend { wallet, asset, .. } => seq![wallet, asset],
        TxView::Transfer { asset, from_wallet, to_wallet, .. } => seq![asset, from_wallet, to_wallet],
        TxView::GiftSent { wallet, asset, .. } => seq![wallet, asset],
        TxView::GiftReceived { wallet, asset, .. } => seq![wallet, asset],
    }
}

/// Every instant of an event, in declaration order.
pub open spec fn view_instants(v: TxView) -> Seq<Timestamp> {
    match v {
        TxView::GiftReceived { timestamp, donor_acquired_at, .. } => seq![timestamp, donor_acquired_at],
        TxView::Buy { timestamp, .. } => seq![timestamp],
        TxView::Sell { timestamp, .. } => seq![timestamp],
        TxView::Trade { timestamp, .. } => seq![timestamp],
        TxView::Income { timestamp, .. } => seq![timestamp],
        TxView::Spend { timestamp, .. } => seq![timestamp],
        TxView::Transfer { timestamp, .. } => seq![timestamp],
        TxView::GiftSent { timestamp, .. } => seq![timestamp],
    }
}

/// Every amount of an event, in declaration order.
pub open spec fn view_amounts(v: TxView) -> Seq<Dec> {
    match v {
        TxView::Buy { quantity, unit_price, fee, .. } => seq![quantity, unit_price, fee],
        TxView::Sell { quantity, unit_price, fee, .. } => seq![quantity, unit_price, fee],
        TxView::Trade { from_quantity, to_quantity, value, fee, .. } => seq![
            from_quantity,
            to_quantity,
            value,
            fee,
        ],
        TxView::Income { quantity, value, .. } => seq![quantity, value],
        TxView::Spend { quantity, value, fee, .. } => seq![quantity, value, fee],
        TxView::Transfer { quantity, fee, fee_value, .. } => seq![quantity, fee, fee_value],
        TxView::GiftSent { quantity, .. } => seq![quantity],
        TxView::GiftReceived { quantity, donor_basis, fmv_at_receipt, .. } => seq![
            quantity,
            donor_basis,
            fmv_at_receipt,
        ],
    }
}

/// The income source of an event, when it is an income.
pub open spec fn view_source(v: TxView) -> Option<IncomeKind> {
    match v {
        TxView::Income { source, .. } => Some(source),
        _ => None,
    }
}

/// Two events are equal, as the import compares them, exactly when they
/// are of the same kind and agree in every field: the same texts, the same
/// instants, the same income source, and numerically equal amounts one by
/// one. In particular two events whose quantities differ are never equal.
pub proof fn tx_equal_law(a: TxView, b: TxView)
    ensures
        tx_equal(a, b) <==> {
            &&& view_kind(a) == view_kind(b)
            &&& view_texts(a) == view_texts(b)
            &&& view_instants(a) == view_instants(b)
            &&& view_source(a) == view_source(b)
            &&& view_amounts(a).len() == view_amounts(b).len()
            &&& forall|i: int| 0 <= i < view_amounts(a).len() ==> dec_eq(
                #[trigger] view_amounts(a)[i],
                view_amounts(b)[i],
            )
        },
{
    let (ta, tb) = (view_texts(a), view_texts(b));
    let (ia, ib) = (view_instants(a), view_instants(b));
    let (ma, mb) = (view_amounts(a), view_amounts(b));
    let agree = {
        &&& view_kind(a) == view_kind(b)
        &&& ta == tb
        &&& ia == ib
        &&& view_source(a) == view_source(b)
        &&& ma.len() == mb.len()
        &&& forall|i: int| 0 <= i < ma.len() ==> dec_eq(#[trigger] ma[i], mb[i])
    };
    if view_kind(a) == view_kind(b) {
        assert(ta.len() == tb.len() && ia.len() == ib.len() && ma.len() == mb.len());
        if tx_equal(a, b) {
            assert(ta =~= tb);
            assert(ia =~= ib);
            assert forall|i: int| 0 <= i < ma.len() implies dec_eq(#[trigger] ma[i], mb[i]) by {}
        }
        if agree {
            assert(ta[0] == tb[0] && ta[1] == tb[1]);
            assert(ta.len() == 3 ==> ta[2] == tb[2]);
            assert(ia[0] == ib[0]);
            assert(ia.len() == 2 ==> ia[1] == ib[1]);
            assert(dec_eq(ma[0], mb[0]));
            assert(ma.len() >= 2 ==> dec_eq(ma[1], mb[1]));
            assert(ma.len() >= 3 ==> dec_eq(ma[2], mb[2]));
            assert(ma.len() >= 4 ==> dec_eq(ma[3], mb[3]));
            match a {
                TxView::Buy { .. } => assert(tx_equal(a, b)),
                TxView::Sell { .. } => assert(tx_equal(a, b)),
                TxView::Trade { .. } => assert(tx_equal(a, b)),
                TxView::Income { .. } => assert(tx_equal(a, b)),
                TxView::Spend { .. } => assert(tx_equal(a, b)),
                TxView::Transfer { .. } => assert(tx_equal(a, b)),
                TxView::GiftSent { .. } => assert(tx_equal(a, b)),
                TxView::GiftReceived { .. } => assert(tx_equal(a, b)),
            }
        }
    } else {
        assert(!tx_equal(a, b));
    }
}

/// Equality of two events as `tx_equal` describes it.
pub fn same_tx(a: &Tx, b: &Tx) -> (r: bool)
    requires
        a.wf(),
        b.wf(),
    ensures
        r == tx_equal(a@, b@),
{
    match (a, b) {
        (
            Tx::Buy { timestamp: t1, wallet: w1, asset: a1, quantity: q1, unit_price: p1, fee: f1 },
            Tx::Buy { timestamp: t2, wallet: w2, asset: a2, quantity: q2, unit_price: p2, fee: f2 },
        ) => t1.same(t2) && *w1 == *w2 && *a1 == *a2 && q1.eq(q2) && p1.eq(p2) && f1.eq(f2),
        (
            Tx::Sell { timestamp: t1, wallet: w1, asset: a1, quantity: q1, unit_price: p1, fee: f1 },
            Tx::Sell { timestamp: t2, wallet: w2, asset: a2, quantity: q2, unit_price: p2, fee: f2 },
        ) => t1.same(t2) && *w1 == *w2 && *a1 == *a2 && q1.eq(q2) && p1.eq(p2) && f1.eq(f2),
        (
            Tx::Trade {
                timestamp: t1,
                wallet: w1,
                from_asset: fa1,
                from_quantity: fq1,
                to_asset: ta1,
                to_quantity: tq1,
                value: v1,
                fee: f1,
            },
            Tx::Trade {
                timestamp: t2,
                wallet: w2,
                from_asset: fa2,
                from_quantity: fq2,
                to_asset: ta2,
                to_quantity: tq2,
                value: v2,
                fee: f2,
            },
        ) => t1.same(t2) && *w1 == *w2 && *fa1 == *fa2 && fq1.eq(fq2) && *ta1 == *ta2 && tq1.eq(tq2)
            && v1.eq(v2) && f1.eq(f2),
        (
            Tx::Income { timestamp: t1, wallet: w1, asset: a1, quantity: q1, value: v1, source: s1 },
            Tx::Income { timestamp: t2, wallet: w2, asset: a2, quantity: q2, value: v2, source: s2 },
        ) => t1.same(t2) && *w1 == *w2 && *a1 == *a2 && q1.eq(q2) && v1.eq(v2) && *s1 == *s2,
        (
            Tx::Spend { timestamp: t1, wallet: w1, asset: a1, quantity: q1, value: v1, fee: f1 },
            Tx::Spend { timestamp: t2, wallet: w2, asset: a2, quantity: q2, value: v2, fee: f2 },
        ) => t1.same(t2) && *w1 == *w2 && *a1 == *a2 && q1.eq(q2) && v1.eq(v2) && f1.eq(f2),
        (
            Tx::Transfer {
                timestamp: t1,
                asset: a1,
                quantity: q1,
                from_wallet: fw1,
                to_wallet: tw1,
                fee: f1,
                fee_value: fv1,
            },
            Tx::Transfer {
                timestamp: t2,
                asset: a2,
                quantity: q2,
                from_wallet: fw2,
                to_wallet: tw2,
                fee: f2,
                fee_value: fv2,
            },
        ) => t1.same(t2) && *a1 == *a2 && q1.eq(q2) && *fw1 == *fw2 && *tw1 == *tw2 && f1.eq(f2)
            && fv1.eq(fv2),
        (
            Tx::GiftSent { timestamp: t1, wallet: w1, asset: a1, quantity: q1 },
            Tx::GiftSent { timestamp: t2, wallet: w2, asset: a2, quantity: q2 },
        ) => t1.same(t2) && *w1 == *w2 && *a1 == *a2 && q1.eq(q2),
        (
            Tx::GiftReceived {
                timestamp: t1,
                wallet: w1,
                asset: a1,
                quantity: q1,
                donor_basis: b1,
                fmv_at_receipt: m1,
                donor_acquired_at: d1,
            },
            Tx::GiftReceived {
                timestamp: t2,
                wallet: w2,
                asset: a2,
                quantity: q2,
                donor_basis: b2,
                fmv_at_receipt: m2,
                donor_acquired_at: d2,
            },
        ) => t1.same(t2) && *w1 == *w2 && *a1 == *a2 && q1.eq(q2) && b1.eq(b2) && m1.eq(m2)
            && d1.same(d2),
        _ => false,
    }
}

} // verus!
