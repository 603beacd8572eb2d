//! The CSV layouts of the tax and holdings exports.

use vstd::prelude::*;

use crate::dec::{decimal_display, Dec};
use crate::model::{GainRow, Period, Position};
use crate::time::{datetime_exists, Timestamp};

verus! {

/// What `chrono` prints for an instant with `DateTime::to_rfc3339`.
pub uninterp spec fn rfc3339_text(t: Timestamp) -> Seq<char>;

/// `DateTime::to_rfc3339` of the instant.
#[verifier::external_body]
fn rfc3339(t: Timestamp) -> (r: String)
    requires
        datetime_exists(t),
    ensures
        r@ == rfc3339_text(t),
{
    chrono::DateTime::from_timestamp(t.secs, t.nanos).unwrap().to_rfc3339()
}

/// The holdings export's header line.
pub open spec fn holdings_header() -> Seq<char> {
    "asset,wallet,quantity,cost_basis,average_cost\n"@
}

/// One holding as a CSV line: asset, wallet, quantity, cost basis and
/// average cost, the amounts as printed decimals.
pub open spec fn holding_line(h: Position) -> Seq<char> {
    h.asset@ + seq![','] + h.wallet@ + seq![','] + decimal_display(h.quantity) + seq![',']
        + decimal_display(h.cost_basis) + seq![','] + decimal_display(h.average_cost) + seq!['\n']
}

/// The lines of a list of holdings, in order.
pub open spec fn holding_lines(hs: Seq<Position>) -> Seq<char>
    decreases hs.len(),
{
    if hs.len() == 0 {
        Seq::empty()
    } else {
        holding_lines(hs.drop_last()) + holding_line(hs.last())
    }
}

/// The holdings export's columns, by name, in order.
pub open spec fn holdings_columns() -> Seq<Seq<char>> {
    seq!["asset"@, "wallet"@, "quantity"@, "cost_basis"@, "average_cost"@]
}

/// What a holding shows under a column of the given name: its asset,
/// wallet, or the printed quantity, cost basis or average cost.
pub open spec fn holding_field(h: Position, column: Seq<char>) -> Seq<char> {
    if column == "asset"@ {
        h.asset@
    } else if column == "wallet"@ {
        h.wallet@
    } else if column == "quantity"@ {
        decimal_display(h.quantity)
    } else if column == "cost_basis"@ {
        decimal_display(h.cost_basis)
    } else if column == "average_cost"@ {
        decimal_display(h.average_cost)
    } else {
        Seq::empty()
    }
}

/// Fields joined by commas, ending in a newline.
pub open spec fn csv_record(fields: Seq<Seq<char>>) -> Seq<char>
    decreases fields.len(),
{
    if fields.len() == 0 {
        seq!['\n']
    } else if fields.len() == 1 {
        fields[0] + seq!['\n']
    } else {
        fields[0] + seq![','] + csv_record(fields.drop_first())
    }
}

/// The holdings export lines up with its header: the header is the
/// column names joined by commas, and each holding's line is, column by
/// column, what the holding shows under that column's name (its cost
/// basis under `cost_basis`, its average cost under `average_cost`).
pub proof fn holdings_columns_law(h: Position)
    ensures
        holdings_header() == csv_record(holdings_columns()),
        holding_line(h) == csv_record(holdings_columns().map_values(|c: Seq<char>| holding_field(h, c))),
{
    reveal_strlit("asset");
    reveal_strlit("wallet");
    reveal_strlit("quantity");
    reveal_strlit("cost_basis");
    reveal_strlit("average_cost");
    reveal_strlit("asset,wallet,quantity,cost_basis,average_cost\n");
    reveal_with_fuel(csv_record, 6);
    let cols = holdings_columns();
    let fs = cols.map_values(|c: Seq<char>| holding_field(h, c));
    assert(cols[0] =~= "asset"@);
    assert(cols[2] == "quantity"@ && cols[3] == "cost_basis"@ && cols[4] == "average_cost"@);
    assert("asset"@.len() == 5 && "wallet"@.len() == 6 && "quantity"@.len() == 8);
    assert("cost_basis"@.len() == 10 && "average_cost"@.len() == 12);
    assert(cols[1] != "asset"@);
    assert(cols[2] != "asset"@ && cols[2] != "wallet"@);
    assert(cols[3] != "asset"@ && cols[3] != "wallet"@ && cols[3] != "quantity"@);
    assert(cols[4] != "asset"@ && cols[4] != "wallet"@ && cols[4] != "quantity"@ && cols[4] != "cost_basis"@);
    assert(fs[0] == h.asset@);
    assert(fs[1] == h.wallet@);
    assert(fs[2] == decimal_display(h.quantity));
    assert(fs[3] == decimal_display(h.cost_basis));
    assert(fs[4] == decimal_display(h.average_cost));
    assert(fs.drop_first().drop_first().drop_first().drop_first() =~= seq![fs[4]]);
    assert(fs.drop_first().drop_first().drop_first() =~= seq![fs[3], fs[4]]);
    assert(fs.drop_first().drop_first() =~= seq![fs[2], fs[3], fs[4]]);
    assert(fs.drop_first() =~= seq![fs[1], fs[2], fs[3], fs[4]]);
    assert(holding_line(h) =~= csv_record(fs));
    let c4 = cols.drop_first().drop_first().drop_first().drop_first();
    assert(c4 =~= seq![cols[4]]);
    assert(cols.drop_first().drop_first().drop_first() =~= seq![cols[3], cols[4]]);
    assert(cols.drop_first().drop_first() =~= seq![cols[2], cols[3], cols[4]]);
    assert(cols.drop_first() =~= seq![cols[1], cols[2], cols[3], cols[4]]);
    assert(holdings_header() =~= csv_record(cols));
}

/// The capital-gains export's header line.
pub open spec fn gains_header() -> Seq<char> {
    "asset,wallet,acquired,disposed,quantity,proceeds,cost_basis,gain,term\n"@
}

/// The term column: `Short`, `Long`, or empty when unknown.
pub open spec fn term_text(t: Option<Period>) -> Seq<char> {
    match t {
        Some(Period::Short) => "Short"@,
        Some(Period::Long) => "Long"@,
        None => Seq::empty(),
    }
}

/// The acquisition column: the RFC 3339 instant, or empty when unknown.
pub open spec fn acquired_text(t: Option<Timestamp>) -> Seq<char> {
    match t {
        Some(a) => rfc3339_text(a),
        None => Seq::empty(),
    }
}

/// One realized gain as a CSV line.
pub open spec fn gain_line(g: GainRow) -> Seq<char> {
    g.asset@ + seq![','] + g.wallet@ + seq![','] + acquired_text(g.acquired_at) + seq![',']
        + rfc3339_text(g.disposed_at) + seq![','] + decimal_display(g.quantity) + seq![',']
        + decimal_display(g.proceeds) + seq![','] + decimal_display(g.cost_basis) + seq![',']
        + decimal_display(g.gain) + seq![','] + term_text(g.term) + seq!['\n']
}

/// The lines of a list of realized gains, in order.
pub open spec fn gain_lines(gs: Seq<GainRow>) -> Seq<char>
    decreases gs.len(),
{
    if gs.len() == 0 {
        Seq::empty()
    } else {
        gain_lines(gs.drop_last()) + gain_line(gs.last())
    }
}

/// Every instant of a gain row is one `chrono` represents.
pub open spec fn row_instants_exist(g: GainRow) -> bool {
    &&& datetime_exists(g.disposed_at)
    &&& (g.acquired_at matches Some(a) ==> datetime_exists(a))
}

/// Appends `field` and then `sep`.
fn push_field(out: &mut String, field: &str, sep: &str)
    ensures
        final(out)@ == old(out)@ + field@ + sep@,
{
    out.append(field);
    out.append(sep);
}

/// The holdings as CSV text: the header, then one line per holding.
pub fn holdings_csv(holdings: &Vec<Position>) -> (r: String)
    requires
        forall|i: int| 0 <= i < holdings@.len() ==> #[trigger] holdings@[i].wf(),
    ensures
        r@ == holdings_header() + holding_lines(holdings@),
{
    proof {
        reveal_strlit(",");
        reveal_strlit("\n");
        assert(","@ =~= seq![',']);
        assert("\n"@ =~= seq!['\n']);
    }
    let mut out = "asset,wallet,quantity,cost_basis,average_cost\n".to_string();
    let mut i: usize = 0;
    while i < holdings.len()
        invariant
            i <= holdings@.len(),
            forall|k: int| 0 <= k < holdings@.len() ==> #[trigger] holdings@[k].wf(),
            out@ == holdings_header() + holding_lines(holdings@.take(i as int)),
            ","@ == seq![','],
            "\n"@ == seq!['\n'],
        decreases holdings@.len() - i,
    {
        let h = &holdings[i];
        assert(holdings@[i as int].wf());
        let ghost before = out@;
        push_field(&mut out, h.asset.as_str(), ",");
        push_field(&mut out, h.wallet.as_str(), ",");
        let q = h.quantity.to_text();
        push_field(&mut out, q.as_str(), ",");
        let c = h.cost_basis.to_text();
        push_field(&mut out, c.as_str(), ",");
        let a = h.average_cost.to_text();
        push_field(&mut out, a.as_str(), "\n");
        assert(holdings@.take(i + 1).drop_last() =~= holdings@.take(i as int));
        assert(holdings@.take(i + 1).last() == holdings@[i as int]);
        assert(out@ =~= before + holding_line(holdings@[i as int]));
        i += 1;
    }
    assert(holdings@.take(holdings@.len() as int) =~= holdings@);
    out
}

/// One realized gain as a CSV line.
#[verifier::rlimit(40)]
fn gain_line_text(g: &GainRow) -> (r: String)
    requires
        g.wf(),
        row_instants_exist(*g),
    ensures
        r@ == gain_line(*g),
{
    proof {
        reveal_strlit(",");
        reveal_strlit("\n");
        reveal_strlit("");
        assert(","@ =~= seq![',']);
        assert("\n"@ =~= seq!['\n']);
        assert(""@ =~= Seq::<char>::empty());
    }
    let mut out = String::new();
    push_field(&mut out, g.asset.as_str(), ",");
    push_field(&mut out, g.wallet.as_str(), ",");
    let acquired = match g.acquired_at {
        Some(a) => rfc3339(a),
        None => "".to_string(),
    };
    push_field(&mut out, acquired.as_str(), ",");
    let disposed = rfc3339(g.disposed_at);
    push_field(&mut out, disposed.as_str(), ",");
    let q = g.quantity.to_text();
    push_field(&mut out, q.as_str(), ",");
    let p = g.proceeds.to_text();
    push_field(&mut out, p.as_str(), ",");
    let c = g.cost_basis.to_text();
    push_field(&mut out, c.as_str(), ",");
    let gain = g.gain.to_text();
    push_field(&mut out, gain.as_str(), ",");
    let term = match g.term {
        Some(Period::Short) => "Short",
        Some(Period::Long) => "Long",
        None => "",
    };
    push_field(&mut out, term, "\n");
    assert(out@ =~= gain_line(*g));
    out
}

/// The realized gains as CSV text: the header, then one line per row with
/// instants in RFC 3339.
pub fn capital_gains_csv(rows: &Vec<GainRow>) -> (r: String)
    requires
        forall|i: int| 0 <= i < rows@.len() ==> #[trigger] rows@[i].wf(),
    ensures
        r@ == gains_header() + gain_lines(rows@),
{
    let mut out = "asset,wallet,acquired,disposed,quantity,proceeds,cost_basis,gain,term\n".to_string();
    let mut i: usize = 0;
    while i < rows.len()
        invariant
            i <= rows@.len(),
            forall|k: int| 0 <= k < rows@.len() ==> #[trigger] rows@[k].wf(),
            out@ == gains_header() + gain_lines(rows@.take(i as int)),
        decreases rows@.len() - i,
    {
        let g = &rows[i];
        assert(rows@[i as int].wf());
        assert(row_instants_exist(rows@[i as int]));
        let ghost before = out@;
        let line = gain_line_text(g);
        out.append(line.as_str());
        assert(rows@.take(i + 1).drop_last() =~= rows@.take(i as int));
        assert(rows@.take(i + 1).last() == rows@[i as int]);
        assert(out@ =~= before + gain_line(rows@[i as int]));
        i += 1;
    }
    assert(rows@.take(rows@.len() as int) =~= rows@);
    out
}

} // verus!
