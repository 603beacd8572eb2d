//! Asset-keyed tables of decimal amounts (asset id to price or weight),
//! kept as lists in the order a map would be filled.

use vstd::prelude::*;

use crate::dec::{dec_zero, Dec};

verus! {

/// The amount recorded for `key`: the last entry for it, as a map filled
/// by insertion keeps it.
pub open spec fn entry_lookup(entries: Seq<(String, Dec)>, key: Seq<char>) -> Option<Dec>
    decreases entries.len(),
{
    if entries.len() == 0 {
        None
    } else if entries.last().0@ == key {
        Some(entries.last().1)
    } else {
        entry_lookup(entries.drop_last(), key)
    }
}

/// The amount recorded for `key`, or zero.
pub open spec fn entry_or_zero(entries: Seq<(String, Dec)>, key: Seq<char>) -> Dec {
    match entry_lookup(entries, key) {
        Some(v) => v,
        None => dec_zero(),
    }
}

/// Every amount is within the decimal bounds.
pub open spec fn entries_wf(entries: Seq<(String, Dec)>) -> bool {
    forall|i: int| 0 <= i < entries.len() ==> (#[trigger] entries[i]).1.wf()
}

/// Some entry has this key.
pub open spec fn has_key(entries: Seq<(String, Dec)>, key: Seq<char>) -> bool {
    exists|i: int| 0 <= i < entries.len() && (#[trigger] entries[i]).0@ == key
}

/// The amounts, in order.
pub open spec fn amounts(entries: Seq<(String, Dec)>) -> Seq<Dec> {
    entries.map_values(|e: (String, Dec)| e.1)
}

pub proof fn lemma_lookup_some_iff_has_key(entries: Seq<(String, Dec)>, key: Seq<char>)
    ensures
        entry_lookup(entries, key) is Some <==> has_key(entries, key),
    decreases entries.len(),
{
    if entries.len() > 0 {
        let rest = entries.drop_last();
        lemma_lookup_some_iff_has_key(rest, key);
        if has_key(rest, key) {
            let i = choose|i: int| 0 <= i < rest.len() && (#[trigger] rest[i]).0@ == key;
            assert(entries[i] == rest[i]);
        }
        if has_key(entries, key) && entries.last().0@ != key {
            let i = choose|i: int| 0 <= i < entries.len() && (#[trigger] entries[i]).0@ == key;
            assert(i < entries.len() - 1);
            assert(rest[i] == entries[i]);
        }
    }
}

/// The amount recorded for `key`, or zero.
pub fn lookup_or_zero(entries: &Vec<(String, Dec)>, key: &String) -> (r: Dec)
    requires
        entries_wf(entries@),
    ensures
        r == entry_or_zero(entries@, key@),
        r.wf(),
{
    let mut i = entries.len();
    assert(entries@.take(i as int) =~= entries@);
    while i > 0
        invariant
            i <= entries.len(),
            entries_wf(entries@),
            entry_lookup(entries@, key@) == entry_lookup(entries@.take(i as int), key@),
        decreases i,
    {
        let ghost pre = entries@.take(i as int);
        assert(pre.last() == entries@[i - 1]);
        assert(pre.drop_last() =~= entries@.take(i - 1));
        if entries[i - 1].0 == *key {
            return entries[i - 1].1;
        }
        i -= 1;
    }
    Dec::zero()
}

/// The amounts, in order.
pub fn amounts_of(entries: &Vec<(String, Dec)>) -> (r: Vec<Dec>)
    requires
        entries_wf(entries@),
    ensures
        r@ == amounts(entries@),
        forall|i: int| 0 <= i < r@.len() ==> #[trigger] r@[i].wf(),
{
    let mut out: Vec<Dec> = Vec::new();
    let mut i: usize = 0;
    while i < entries.len()
        invariant
            i <= entries.len(),
            entries_wf(entries@),
            out@ == amounts(entries@).take(i as int),
        decreases entries.len() - i,
    {
        out.push(entries[i].1);
        i += 1;
        assert(out@ =~= amounts(entries@).take(i as int));
    }
    assert(amounts(entries@).take(entries.len() as int) =~= amounts(entries@));
    out
}

} // verus!
