//! Reading ledger rows from CSV text, merging them into a ledger without
//! repeats, and listing the assets a ledger touches.

use vstd::prelude::*;

use crate::dec::{dec_le, dec_lt, dec_zero, decimal_parse, Dec};
use crate::model::{ledger_view, same_tx, tx_equal, Tx, TxView};
use crate::portfolio::ledger_wf;
use crate::text::{
    ascending, insert_ascending, lowercase, spells, split_at_char, split_on, str_same, trim_text,
    trimmed, unicode_lowercase,
};
use crate::time::{chrono_ymd_midnight, midnight_of_date};

verus! {

/// The comma-separated fields of a row, each trimmed.
pub open spec fn row_fields(line: Seq<char>) -> Seq<Seq<char>> {
    split_on(line, ',').map_values(|p: Seq<char>| trimmed(p))
}

/// The fee column (the sixth): zero when blank, else the parsed amount.
pub open spec fn fee_field(f: Seq<Seq<char>>) -> Option<Dec> {
    if f[5].len() == 0 {
        Some(dec_zero())
    } else {
        decimal_parse(f[5])
    }
}

/// The optional seventh column, `"default"` when missing or blank.
pub open spec fn wallet_field(f: Seq<Seq<char>>) -> Seq<char> {
    if f.len() > 6 && f[6].len() > 0 {
        f[6]
    } else {
        seq!['d', 'e', 'f', 'a', 'u', 'l', 't']
    }
}

/// The event a row `date,coin,action,quantity,price_usd,fee_usd[,wallet]`
/// describes: a dated (midnight UTC) buy or sell of a named coin with a
/// positive quantity and non-negative price and fee (zero when blank);
/// `None` for anything else, a row without the fee column among them.
pub open spec fn spec_parse_row(line: Seq<char>) -> Option<TxView> {
    let f = row_fields(line);
    if f.len() < 6 {
        None
    } else {
        match (chrono_ymd_midnight(f[0]), decimal_parse(f[3]), decimal_parse(f[4]), fee_field(f)) {
            (Some(t), Some(q), Some(p), Some(fee)) => {
                let action = unicode_lowercase(f[2]);
                if f[1].len() == 0 || dec_le(q, dec_zero()) || dec_lt(p, dec_zero()) || dec_lt(
                    fee,
                    dec_zero(),
                ) {
                    None
                } else if action == seq!['b', 'u', 'y'] {
                    Some(
                        TxView::Buy {
                            timestamp: t,
                            wallet: wallet_field(f),
                            asset: f[1],
                            quantity: q,
                            unit_price: p,
                            fee,
                        },
                    )
                } else if action == seq!['s', 'e', 'l', 'l'] {
                    Some(
                        TxView::Sell {
                            timestamp: t,
                            wallet: wallet_field(f),
                            asset: f[1],
                            quantity: q,
                            unit_price: p,
                            fee,
                        },
                    )
                } else {
                    None
                }
            },
            _ => None,
        }
    }
}

/// Splits a row at commas and trims every field.
fn trimmed_fields(line: &str) -> (r: Vec<String>)
    ensures
        r@.len() == row_fields(line@).len(),
        forall|i: int| 0 <= i < r@.len() ==> (#[trigger] r@[i])@ == row_fields(line@)[i],
{
    let parts = split_at_char(line, ',');
    let mut out: Vec<String> = Vec::new();
    let mut i: usize = 0;
    while i < parts.len()
        invariant
            i <= parts@.len(),
            parts@.len() == split_on(line@, ',').len(),
            forall|k: int| 0 <= k < parts@.len() ==> (#[trigger] parts@[k])@ == split_on(line@, ',')[k],
            out@.len() == i,
            forall|k: int| 0 <= k < i ==> (#[trigger] out@[k])@ == trimmed(parts@[k]@),
        decreases parts@.len() - i,
    {
        out.push(trim_text(parts[i].as_str()));
        i += 1;
    }
    out
}

/// Reads one CSV row as a buy or sell (see `spec_parse_row`).
pub fn parse_csv_row(line: &str) -> (r: Option<Tx>)
    ensures
        match r {
            Some(tx) => tx.wf() && spec_parse_row(line@) == Some(tx@),
            None => spec_parse_row(line@) is None,
        },
{
    let f = trimmed_fields(line);
    if f.len() < 6 {
        return None;
    }
    let timestamp = match midnight_of_date(f[0].as_str()) {
        Some(t) => t,
        None => {
            return None;
        },
    };
    let quantity = match Dec::parse(f[3].as_str()) {
        Some(q) => q,
        None => {
            return None;
        },
    };
    let unit_price = match Dec::parse(f[4].as_str()) {
        Some(p) => p,
        None => {
            return None;
        },
    };
    let fee = if f[5].as_str().is_empty() {
        Dec::zero()
    } else {
        match Dec::parse(f[5].as_str()) {
            Some(x) => x,
            None => {
                return None;
            },
        }
    };
    let zero = Dec::zero();
    if f[1].as_str().is_empty() || quantity.le(&zero) || unit_price.lt(&zero) || fee.lt(&zero) {
        return None;
    }
    let wallet = if f.len() > 6 && !f[6].as_str().is_empty() {
        f[6].clone()
    } else {
        "default".to_string()
    };
    proof {
        reveal_strlit("default");
        reveal_strlit("buy");
        reveal_strlit("sell");
        assert("buy"@ =~= seq!['b', 'u', 'y']);
        assert("sell"@ =~= seq!['s', 'e', 'l', 'l']);
    }
    assert(wallet@ == wallet_field(row_fields(line@)));
    let action = lowercase(f[2].as_str());
    let asset = f[1].clone();
    if str_same(action.as_str(), "buy") {
        Some(Tx::Buy { timestamp, wallet, asset, quantity, unit_price, fee })
    } else if str_same(action.as_str(), "sell") {
        Some(Tx::Sell { timestamp, wallet, asset, quantity, unit_price, fee })
    } else {
        None
    }
}

/// `s` without one trailing carriage return.
pub open spec fn strip_cr(s: Seq<char>) -> Seq<char> {
    if s.len() > 0 && s.last() == '\r' {
        s.drop_last()
    } else {
        s
    }
}

/// The lines of a text as `str::lines` yields them: split at `\n`, a `\r`
/// before the `\n` dropped, and no empty line after a final `\n`.
pub open spec fn text_lines(s: Seq<char>) -> Seq<Seq<char>> {
    let parts = split_on(s, '\n');
    let body = parts.take(parts.len() - 1).map_values(|p: Seq<char>| strip_cr(p));
    if parts.last().len() == 0 {
        body
    } else {
        body.push(parts.last())
    }
}

pub proof fn lemma_split_on_nonempty(s: Seq<char>, sep: char)
    ensures
        split_on(s, sep).len() >= 1,
    decreases s.len(),
{
    reveal_with_fuel(split_on, 1);
}

/// The text with one trailing carriage return removed.
fn without_cr(p: &str) -> (r: String)
    ensures
        r@ == strip_cr(p@),
{
    let k = p.unicode_len();
    if k > 0 && p.get_char(k - 1) == '\r' {
        let r = p.substring_char(0, k - 1).to_string();
        assert(r@ =~= p@.drop_last());
        r
    } else {
        p.to_string()
    }
}

/// The lines of a text (`str::lines`).
pub fn lines_of(s: &str) -> (r: Vec<String>)
    ensures
        r@.len() == text_lines(s@).len(),
        forall|i: int| 0 <= i < r@.len() ==> (#[trigger] r@[i])@ == text_lines(s@)[i],
{
    let parts = split_at_char(s, '\n');
    let ghost sp = split_on(s@, '\n');
    proof {
        lemma_split_on_nonempty(s@, '\n');
    }
    let n = parts.len();
    let mut out: Vec<String> = Vec::new();
    let mut i: usize = 0;
    while i + 1 < n
        invariant
            n == parts@.len(),
            n == sp.len(),
            n >= 1,
            i < n,
            forall|k: int| 0 <= k < n ==> (#[trigger] parts@[k])@ == sp[k],
            out@.len() == i,
            forall|k: int| 0 <= k < i ==> (#[trigger] out@[k])@ == strip_cr(sp[k]),
        decreases n - i,
    {
        out.push(without_cr(parts[i].as_str()));
        i += 1;
    }
    let ghost body = sp.take(n - 1).map_values(|p: Seq<char>| strip_cr(p));
    assert(body.len() == out@.len());
    if !parts[n - 1].as_str().is_empty() {
        out.push(parts[n - 1].clone());
    }
    out
}

/// Some event of the ledger equals `tx` (as the engine compares events).
pub open spec fn contains_tx(led: Seq<TxView>, tx: TxView) -> bool {
    exists|j: int| 0 <= j < led.len() && tx_equal(#[trigger] led[j], tx)
}

/// Whether the ledger holds an event equal to `tx`.
pub fn ledger_contains(led: &Vec<Tx>, tx: &Tx) -> (r: bool)
    requires
        ledger_wf(led@),
        tx.wf(),
    ensures
        r == contains_tx(ledger_view(led@), tx@),
{
    let mut i: usize = 0;
    while i < led.len()
        invariant
            i <= led@.len(),
            ledger_wf(led@),
            tx.wf(),
            forall|j: int| 0 <= j < i ==> !tx_equal(#[trigger] ledger_view(led@)[j], tx@),
        decreases led@.len() - i,
    {
        if same_tx(&led[i], tx) {
            assert(tx_equal(ledger_view(led@)[i as int], tx@));
            return true;
        }
        i += 1;
    }
    false
}

/// Where an import stands after some lines: the ledger so far, the rows
/// added and skipped, and the (1-based) numbers of the invalid lines.
pub struct ImportView {
    pub ledger: Seq<TxView>,
    pub added: nat,
    pub skipped: nat,
    pub invalid: Seq<int>,
}

/// Line `i` holds data: it is not the header and not blank.
pub open spec fn is_data_line(lines: Seq<Seq<char>>, i: int) -> bool {
    i != 0 && trimmed(lines[i]).len() > 0
}

/// The import of the first `n` lines into `existing`: each data line that
/// reads as an event is appended unless an equal event is already there
/// (then it is skipped); each data line that does not read is skipped and
/// its number noted.
pub open spec fn import_fold(existing: Seq<TxView>, lines: Seq<Seq<char>>, n: nat) -> ImportView
    decreases n,
{
    if n == 0 {
        ImportView { ledger: existing, added: 0, skipped: 0, invalid: Seq::empty() }
    } else {
        let st = import_fold(existing, lines, (n - 1) as nat);
        let i = n - 1;
        if !is_data_line(lines, i) {
            st
        } else {
            match spec_parse_row(lines[i]) {
                Some(tx) => if contains_tx(st.ledger, tx) {
                    ImportView { skipped: st.skipped + 1, ..st }
                } else {
                    ImportView { ledger: st.ledger.push(tx), added: st.added + 1, ..st }
                },
                None => ImportView {
                    skipped: st.skipped + 1,
                    invalid: st.invalid.push(i + 1),
                    ..st
                },
            }
        }
    }
}

/// The import of every line of `text` into `existing`.
pub open spec fn spec_import(existing: Seq<TxView>, text: Seq<char>) -> ImportView {
    import_fold(existing, text_lines(text), text_lines(text).len())
}

/// What importing CSV text into a ledger gives.
pub struct ImportOutcome {
    pub ledger: Vec<Tx>,
    pub added: usize,
    pub skipped: usize,
    pub invalid_lines: Vec<usize>,
}

/// Imports `date,coin,action,quantity,price_usd,fee_usd[,wallet]` rows
/// (after a header line) into `existing`, appending each row unless an
/// equal event is already in the ledger; blank lines are ignored.
pub fn import_rows(existing: Vec<Tx>, text: &str) -> (r: ImportOutcome)
    requires
        ledger_wf(existing@),
    ensures
        ledger_wf(r.ledger@),
        ledger_view(r.ledger@) == spec_import(ledger_view(existing@), text@).ledger,
        r.added == spec_import(ledger_view(existing@), text@).added,
        r.skipped == spec_import(ledger_view(existing@), text@).skipped,
        r.invalid_lines@.len() == spec_import(ledger_view(existing@), text@).invalid.len(),
        forall|k: int|
            0 <= k < r.invalid_lines@.len() ==> (#[trigger] r.invalid_lines@[k]) as int
                == spec_import(ledger_view(existing@), text@).invalid[k],
{
    let lines = lines_of(text);
    let ghost ls = text_lines(text@);
    let ghost start = ledger_view(existing@);
    let mut ledger = existing;
    let mut added: usize = 0;
    let mut skipped: usize = 0;
    let mut invalid: Vec<usize> = Vec::new();
    let mut i: usize = 0;
    while i < lines.len()
        invariant
            i <= lines@.len(),
            lines@.len() == ls.len(),
            forall|k: int| 0 <= k < lines@.len() ==> (#[trigger] lines@[k])@ == ls[k],
            ledger_wf(ledger@),
            added + skipped <= i,
            ledger_view(ledger@) == import_fold(start, ls, i as nat).ledger,
            added == import_fold(start, ls, i as nat).added,
            skipped == import_fold(start, ls, i as nat).skipped,
            invalid@.len() == import_fold(start, ls, i as nat).invalid.len(),
            forall|k: int|
                0 <= k < invalid@.len() ==> (#[trigger] invalid@[k]) as int == import_fold(
                    start,
                    ls,
                    i as nat,
                ).invalid[k],
        decreases lines@.len() - i,
    {
        let line = lines[i].as_str();
        let t = trim_text(line);
        if i != 0 && !t.as_str().is_empty() {
            match parse_csv_row(line) {
                Some(tx) => {
                    if ledger_contains(&ledger, &tx) {
                        skipped += 1;
                    } else {
                        let ghost before = ledger@;
                        ledger.push(tx);
                        assert(ledger_view(ledger@) =~= ledger_view(before).push(tx@));
                        assert forall|k: int| 0 <= k < ledger@.len() implies #[trigger] ledger@[k].wf() by {
                            if k < before.len() {
                                assert(ledger@[k] == before[k]);
                            }
                        }
                        added += 1;
                    }
                },
                None => {
                    invalid.push(i + 1);
                    skipped += 1;
                },
            }
        }
        i += 1;
    }
    ImportOutcome { ledger, added, skipped, invalid_lines: invalid }
}

/// The number of data lines among the first `n`.
pub open spec fn count_data(lines: Seq<Seq<char>>, n: nat) -> nat
    decreases n,
{
    if n == 0 {
        0
    } else if is_data_line(lines, n - 1) {
        count_data(lines, (n - 1) as nat) + 1
    } else {
        count_data(lines, (n - 1) as nat)
    }
}

/// Every event equals itself.
pub proof fn lemma_tx_equal_refl(t: TxView)
    ensures
        tx_equal(t, t),
{
}

/// What an import of the first `n` lines keeps: every data line is counted
/// once, as added or as skipped; the ledger is the old one followed by the
/// added events; and every data line that reads as an event has an equal
/// event in the resulting ledger.
pub proof fn lemma_import_fold(existing: Seq<TxView>, lines: Seq<Seq<char>>, n: nat)
    requires
        n <= lines.len(),
    ensures
        import_fold(existing, lines, n).added + import_fold(existing, lines, n).skipped
            == count_data(lines, n),
        import_fold(existing, lines, n).ledger.len() == existing.len() + import_fold(
            existing,
            lines,
            n,
        ).added,
        import_fold(existing, lines, n).ledger.take(existing.len() as int) == existing,
        forall|i: int|
            0 <= i < n && is_data_line(lines, i) && #[trigger] spec_parse_row(lines[i]) is Some
                ==> contains_tx(import_fold(existing, lines, n).ledger, spec_parse_row(lines[i])->0),
    decreases n,
{
    if n > 0 {
        lemma_import_fold(existing, lines, (n - 1) as nat);
        let st = import_fold(existing, lines, (n - 1) as nat);
        let cur = import_fold(existing, lines, n);
        let k = n - 1;
        if is_data_line(lines, k) {
            if let Some(tx) = spec_parse_row(lines[k]) {
                if !contains_tx(st.ledger, tx) {
                    assert(cur.ledger == st.ledger.push(tx));
                    assert(cur.ledger.take(existing.len() as int) =~= st.ledger.take(
                        existing.len() as int,
                    ));
                    assert forall|i: int|
                        0 <= i < n && is_data_line(lines, i) && #[trigger] spec_parse_row(lines[i])
                            is Some implies contains_tx(cur.ledger, spec_parse_row(lines[i])->0) by {
                        let t = spec_parse_row(lines[i])->0;
                        if i == k {
                            lemma_tx_equal_refl(tx);
                            assert(cur.ledger[st.ledger.len() as int] == tx);
                        } else {
                            let j = choose|j: int| 0 <= j < st.ledger.len() && tx_equal(
                                #[trigger] st.ledger[j],
                                t,
                            );
                            assert(cur.ledger[j] == st.ledger[j]);
                        }
                    }
                }
            }
        }
    }
}

/// Importing rows whose events are all in the ledger already changes
/// nothing and adds nothing.
pub proof fn lemma_import_nothing_new(ledger: Seq<TxView>, lines: Seq<Seq<char>>, n: nat)
    requires
        n <= lines.len(),
        forall|i: int|
            0 <= i < lines.len() && is_data_line(lines, i) && #[trigger] spec_parse_row(lines[i])
                is Some ==> contains_tx(ledger, spec_parse_row(lines[i])->0),
    ensures
        import_fold(ledger, lines, n).ledger == ledger,
        import_fold(ledger, lines, n).added == 0,
    decreases n,
{
    if n > 0 {
        lemma_import_nothing_new(ledger, lines, (n - 1) as nat);
        let k = n - 1;
        if is_data_line(lines, k) && spec_parse_row(lines[k]) is Some {
            assert(contains_tx(ledger, spec_parse_row(lines[k])->0));
        }
    }
}

/// Laws of an import: every data line (not the header, not blank) is
/// counted exactly once, as added or skipped; and the ledger grows only by
/// appending the added events after the old ones.
pub proof fn import_laws(existing: Seq<TxView>, text: Seq<char>)
    ensures
        spec_import(existing, text).added + spec_import(existing, text).skipped == count_data(
            text_lines(text),
            text_lines(text).len(),
        ),
        spec_import(existing, text).ledger.len() == existing.len() + spec_import(existing, text).added,
        spec_import(existing, text).ledger.take(existing.len() as int) == existing,
{
    let lines = text_lines(text);
    lemma_import_fold(existing, lines, lines.len());
}

/// Importing the same CSV text a second time adds nothing and leaves the
/// ledger as the first import left it (what `import_rows` returns, by its
/// contract).
pub proof fn reimport_adds_nothing(existing: Seq<TxView>, text: Seq<char>)
    ensures
        spec_import(spec_import(existing, text).ledger, text).added == 0,
        spec_import(spec_import(existing, text).ledger, text).ledger == spec_import(existing, text).ledger,
{
    let lines = text_lines(text);
    lemma_import_fold(existing, lines, lines.len());
    let first = spec_import(existing, text).ledger;
    lemma_import_nothing_new(first, lines, lines.len());
}

/// Some event of the ledger touches `asset` (either leg of a trade counts).
pub open spec fn touches(txs: Seq<Tx>, asset: Seq<char>) -> bool {
    exists|i: int, j: int|
        0 <= i < txs.len() && 0 <= j < txs[i].spec_assets().len() && (#[trigger] txs[i].spec_assets()[j])
            == asset
}

/// The asset ids one event touches.
fn asset_ids(tx: &Tx) -> (r: Vec<String>)
    ensures
        r@.len() == tx.spec_assets().len(),
        forall|k: int| 0 <= k < r@.len() ==> (#[trigger] r@[k])@ == tx.spec_assets()[k],
{
    match tx {
        Tx::Trade { from_asset, to_asset, .. } => vec![from_asset.clone(), to_asset.clone()],
        Tx::Buy { asset, .. } => vec![asset.clone()],
        Tx::Sell { asset, .. } => vec![asset.clone()],
        Tx::Income { asset, .. } => vec![asset.clone()],
        Tx::Spend { asset, .. } => vec![asset.clone()],
        Tx::Transfer { asset, .. } => vec![asset.clone()],
        Tx::GiftSent { asset, .. } => vec![asset.clone()],
        Tx::GiftReceived { asset, .. } => vec![asset.clone()],
    }
}

/// The distinct asset ids the ledger touches, in ascending order.
pub fn assets(txs: &[Tx]) -> (r: Vec<String>)
    ensures
        ascending(r@),
        forall|s: Seq<char>| #[trigger] spells(r@, s) <==> touches(txs@, s),
{
    let mut set: Vec<String> = Vec::new();
    let mut i: usize = 0;
    while i < txs.len()
        invariant
            i <= txs@.len(),
            ascending(set@),
            forall|s: Seq<char>| #[trigger] spells(set@, s) <==> touches(txs@.take(i as int), s),
        decreases txs@.len() - i,
    {
        let ghost before = set@;
        let ids = asset_ids(&txs[i]);
        let ghost cur = txs@[i as int].spec_assets();
        let mut k: usize = 0;
        while k < ids.len()
            invariant
                k <= ids@.len(),
                ids@.len() == cur.len(),
                forall|m: int| 0 <= m < ids@.len() ==> (#[trigger] ids@[m])@ == cur[m],
                ascending(set@),
                forall|s: Seq<char>| #[trigger]
                    spells(set@, s) <==> (spells(before, s) || cur.take(k as int).contains(s)),
            decreases ids@.len() - k,
        {
            let ghost mid = set@;
            insert_ascending(&mut set, ids[k].clone());
            assert forall|s: Seq<char>| #[trigger]
                spells(set@, s) <==> (spells(before, s) || cur.take(k + 1).contains(s)) by {
                if cur.take(k + 1).contains(s) && !cur.take(k as int).contains(s) {
                    let m = choose|m: int| 0 <= m < k + 1 && #[trigger] cur.take(k + 1)[m] == s;
                    if m < k {
                        assert(cur.take(k as int)[m] == s);
                    }
                }
                if cur.take(k as int).contains(s) {
                    let m = choose|m: int| 0 <= m < k && #[trigger] cur.take(k as int)[m] == s;
                    assert(cur.take(k + 1)[m] == s);
                }
                if s == cur[k as int] {
                    assert(cur.take(k + 1)[k as int] == s);
                }
            }
            k += 1;
        }
        assert(cur.take(cur.len() as int) =~= cur);
        assert forall|s: Seq<char>| #[trigger]
            spells(set@, s) <==> touches(txs@.take(i + 1), s) by {
            let pre = txs@.take(i as int);
            let post = txs@.take(i + 1);
            assert(spells(set@, s) <==> (spells(before, s) || cur.contains(s)));
            if touches(post, s) {
                let (a, b) = choose|a: int, b: int|
                    0 <= a < post.len() && 0 <= b < post[a].spec_assets().len() && (#[trigger] post[a].spec_assets()[b]) == s;
                if a < i {
                    assert(pre[a] == post[a]);
                    assert(touches(pre, s));
                } else {
                    assert(cur[b] == s);
                }
            }
            if touches(pre, s) {
                let (a, b) = choose|a: int, b: int|
                    0 <= a < pre.len() && 0 <= b < pre[a].spec_assets().len() && (#[trigger] pre[a].spec_assets()[b]) == s;
                assert(post[a] == pre[a]);
                assert(post[a].spec_assets()[b] == s);
            }
            if cur.contains(s) {
                let b = choose|b: int| 0 <= b < cur.len() && #[trigger] cur[b] == s;
                assert(post[i as int].spec_assets()[b] == s);
            }
        }
        i += 1;
    }
    assert(txs@.take(txs@.len() as int) =~= txs@);
    set
}

} // verus!
