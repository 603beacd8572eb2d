//! Text helpers: code-point order of strings, splitting, trimming and case
//! mapping.

use vstd::prelude::*;

verus! {

/// Lexicographic order of code-point sequences. On UTF-8 strings this is
/// the byte order `String`'s `Ord` uses, since UTF-8 preserves code-point
/// order.
pub open spec fn lex_lt(a: Seq<char>, b: Seq<char>) -> bool
    decreases a.len(),
{
    if a.len() == 0 {
        b.len() > 0
    } else if b.len() == 0 {
        false
    } else if (a[0] as int) < (b[0] as int) {
        true
    } else if (a[0] as int) > (b[0] as int) {
        false
    } else {
        lex_lt(a.drop_first(), b.drop_first())
    }
}

pub proof fn lemma_lex_irreflexive(a: Seq<char>)
    ensures
        !lex_lt(a, a),
    decreases a.len(),
{
    if a.len() > 0 {
        lemma_lex_irreflexive(a.drop_first());
    }
}

pub proof fn lemma_lex_trichotomy(a: Seq<char>, b: Seq<char>)
    ensures
        lex_lt(a, b) || a == b || lex_lt(b, a),
        !(lex_lt(a, b) && lex_lt(b, a)),
    decreases a.len(),
{
    if a.len() > 0 && b.len() > 0 {
        lemma_lex_trichotomy(a.drop_first(), b.drop_first());
        if a[0] == b[0] && a.drop_first() == b.drop_first() {
            assert(a =~= seq![a[0]] + a.drop_first());
            assert(b =~= seq![b[0]] + b.drop_first());
        }
        if (a[0] as int) == (b[0] as int) {
            assert(a[0] == b[0]);
        }
    } else if a.len() == 0 && b.len() == 0 {
        assert(a =~= b);
    }
}

pub proof fn lemma_lex_transitive(a: Seq<char>, b: Seq<char>, c: Seq<char>)
    requires
        lex_lt(a, b),
        lex_lt(b, c),
    ensures
        lex_lt(a, c),
    decreases a.len(),
{
    if a.len() > 0 && b.len() > 0 && c.len() > 0 {
        if (a[0] as int) == (b[0] as int) && (b[0] as int) == (c[0] as int) {
            lemma_lex_transitive(a.drop_first(), b.drop_first(), c.drop_first());
        }
    }
}

/// Code-point order of two strings (`String`'s order).
pub fn str_less(a: &str, b: &str) -> (r: bool)
    ensures
        r == lex_lt(a@, b@),
{
    let la = a.unicode_len();
    let lb = b.unicode_len();
    let mut i: usize = 0;
    assert(a@.skip(0) =~= a@ && b@.skip(0) =~= b@);
    while i < la && i < lb
        invariant
            la == a@.len(),
            lb == b@.len(),
            i <= la,
            i <= lb,
            a@.take(i as int) == b@.take(i as int),
            lex_lt(a@, b@) == lex_lt(a@.skip(i as int), b@.skip(i as int)),
        decreases la - i,
    {
        let ca = a.get_char(i);
        let cb = b.get_char(i);
        let ghost sa = a@.skip(i as int);
        let ghost sb = b@.skip(i as int);
        assert(sa[0] == ca && sb[0] == cb);
        if (ca as u32) < (cb as u32) {
            return true;
        }
        if (ca as u32) > (cb as u32) {
            return false;
        }
        assert(ca == cb);
        assert(sa.drop_first() =~= a@.skip(i + 1));
        assert(sb.drop_first() =~= b@.skip(i + 1));
        assert(a@.take(i + 1) =~= a@.take(i as int).push(ca));
        assert(b@.take(i + 1) =~= b@.take(i as int).push(cb));
        i += 1;
    }
    i == la && i < lb
}

/// Equality of two strings as code-point sequences.
pub fn str_same(a: &str, b: &str) -> (r: bool)
    ensures
        r == (a@ == b@),
{
    proof {
        lemma_lex_trichotomy(a@, b@);
        lemma_lex_irreflexive(a@);
    }
    !str_less(a, b) && !str_less(b, a)
}

/// Strictly ascending by code points, hence free of repeats.
pub open spec fn ascending(v: Seq<String>) -> bool {
    forall|i: int, j: int| 0 <= i < j < v.len() ==> lex_lt((#[trigger] v[i])@, (#[trigger] v[j])@)
}

/// Some element spells `key`.
pub open spec fn spells(v: Seq<String>, key: Seq<char>) -> bool {
    exists|i: int| 0 <= i < v.len() && (#[trigger] v[i])@ == key
}

/// Adds `key` to an ascending list unless it is there already (what
/// inserting into an ordered set does).
pub fn insert_ascending(keys: &mut Vec<String>, key: String)
    requires
        ascending(old(keys)@),
    ensures
        ascending(final(keys)@),
        forall|s: Seq<char>| #[trigger]
            spells(final(keys)@, s) <==> (spells(old(keys)@, s) || s == key@),
{
    let mut p: usize = 0;
    while p < keys.len() && str_less(keys[p].as_str(), key.as_str())
        invariant
            p <= keys@.len(),
            keys@ == old(keys)@,
            ascending(keys@),
            forall|i: int| 0 <= i < p ==> lex_lt((#[trigger] keys@[i])@, key@),
        decreases keys@.len() - p,
    {
        p += 1;
    }
    if p < keys.len() && str_same(keys[p].as_str(), key.as_str()) {
        assert(spells(keys@, key@));
        return;
    }
    let ghost old_keys = keys@;
    proof {
        if p < old_keys.len() {
            lemma_lex_trichotomy(old_keys[p as int]@, key@);
            assert(lex_lt(key@, old_keys[p as int]@));
        }
    }
    keys.insert(p, key);
    assert forall|i: int, j: int| 0 <= i < j < keys@.len() implies lex_lt(
        (#[trigger] keys@[i])@,
        (#[trigger] keys@[j])@,
    ) by {
        if j < p {
            assert(keys@[i] == old_keys[i] && keys@[j] == old_keys[j]);
        } else if j == p {
            assert(keys@[i] == old_keys[i]);
        } else if i == p {
            assert(keys@[j] == old_keys[j - 1]);
            if j - 1 > p {
                assert(lex_lt(old_keys[p as int]@, old_keys[j - 1]@));
                lemma_lex_transitive(key@, old_keys[p as int]@, old_keys[j - 1]@);
            }
        } else if i < p {
            assert(keys@[i] == old_keys[i] && keys@[j] == old_keys[j - 1]);
            assert(lex_lt(old_keys[i]@, key@));
            if j - 1 > p {
                lemma_lex_transitive(key@, old_keys[p as int]@, old_keys[j - 1]@);
            }
            lemma_lex_transitive(old_keys[i]@, key@, old_keys[j - 1]@);
        } else {
            assert(keys@[i] == old_keys[i - 1] && keys@[j] == old_keys[j - 1]);
        }
    }
    assert forall|s: Seq<char>| #[trigger]
        spells(keys@, s) <==> (spells(old_keys, s) || s == key@) by {
        if spells(keys@, s) {
            let i = choose|i: int| 0 <= i < keys@.len() && (#[trigger] keys@[i])@ == s;
            if i < p {
                assert(keys@[i] == old_keys[i]);
            } else if i > p {
                assert(keys@[i] == old_keys[i - 1]);
            }
        }
        if spells(old_keys, s) {
            let i = choose|i: int| 0 <= i < old_keys.len() && (#[trigger] old_keys[i])@ == s;
            if i < p {
                assert(keys@[i] == old_keys[i]);
            } else {
                assert(keys@[i + 1] == old_keys[i]);
            }
        }
        if s == key@ {
            assert(keys@[p as int]@ == s);
        }
    }
}

/// Index of the first `c` in `s`, or `s.len()` when there is none.
pub open spec fn first_index(s: Seq<char>, c: char) -> int
    decreases s.len(),
{
    if s.len() == 0 {
        0
    } else if s[0] == c {
        0
    } else {
        1 + first_index(s.drop_first(), c)
    }
}

/// The pieces of `s` between occurrences of `sep` (`str::split` with a
/// character pattern): one more piece than there are separators.
pub open spec fn split_on(s: Seq<char>, sep: char) -> Seq<Seq<char>>
    decreases s.len(),
{
    let i = first_index(s, sep);
    if i >= s.len() {
        seq![s]
    } else {
        proof {
            lemma_first_index_bounds(s, sep);
        }
        seq![s.take(i)] + split_on(s.skip(i + 1), sep)
    }
}

pub proof fn lemma_first_index_bounds(s: Seq<char>, c: char)
    ensures
        0 <= first_index(s, c) <= s.len(),
        first_index(s, c) < s.len() ==> s[first_index(s, c)] == c,
        forall|j: int| 0 <= j < first_index(s, c) ==> s[j] != c,
    decreases s.len(),
{
    if s.len() > 0 && s[0] != c {
        lemma_first_index_bounds(s.drop_first(), c);
        assert forall|j: int| 0 <= j < first_index(s, c) implies s[j] != c by {
            if j > 0 {
                assert(s[j] == s.drop_first()[j - 1]);
            }
        }
    }
}

pub proof fn lemma_first_index_at(s: Seq<char>, c: char, i: int)
    requires
        0 <= i <= s.len(),
        forall|j: int| 0 <= j < i ==> s[j] != c,
        i == s.len() || s[i] == c,
    ensures
        first_index(s, c) == i,
    decreases s.len(),
{
    if s.len() > 0 && i > 0 {
        assert forall|j: int| 0 <= j < i - 1 implies s.drop_first()[j] != c by {
            assert(s.drop_first()[j] == s[j + 1]);
        }
        lemma_first_index_at(s.drop_first(), c, i - 1);
    }
}

/// Splits `s` at every `sep`, as `str::split` with a character does.
pub fn split_at_char(s: &str, sep: char) -> (r: Vec<String>)
    ensures
        r@.len() == split_on(s@, sep).len(),
        forall|i: int| 0 <= i < r@.len() ==> (#[trigger] r@[i])@ == split_on(s@, sep)[i],
{
    let n = s.unicode_len();
    let mut out: Vec<String> = Vec::new();
    let mut start: usize = 0;
    let mut i: usize = 0;
    let ghost mut done: Seq<Seq<char>> = Seq::empty();
    assert(s@.skip(0) =~= s@);
    while i < n
        invariant
            n == s@.len(),
            start <= i <= n,
            out@.len() == done.len(),
            forall|k: int| 0 <= k < out@.len() ==> (#[trigger] out@[k])@ == done[k],
            done + split_on(s@.skip(start as int), sep) == split_on(s@, sep),
            forall|j: int| start <= j < i ==> s@[j] != sep,
        decreases n - i,
    {
        let c = s.get_char(i);
        if c == sep {
            let piece = s.substring_char(start, i).to_string();
            proof {
                let rest = s@.skip(start as int);
                lemma_first_index_at(rest, sep, i - start);
                assert(rest.take(i - start) =~= s@.subrange(start as int, i as int));
                assert(rest.skip(i - start + 1) =~= s@.skip(i + 1));
                assert(split_on(rest, sep) == seq![rest.take(i - start)] + split_on(
                    rest.skip(i - start + 1),
                    sep,
                ));
                done = done.push(piece@);
                assert(done + split_on(s@.skip(i + 1), sep) =~= done.drop_last() + split_on(
                    rest,
                    sep,
                ));
            }
            out.push(piece);
            start = i + 1;
        }
        i += 1;
    }
    let last = s.substring_char(start, n).to_string();
    proof {
        let rest = s@.skip(start as int);
        lemma_first_index_at(rest, sep, n - start);
        assert(rest =~= s@.subrange(start as int, n as int));
        assert(split_on(rest, sep) == seq![rest]);
        done = done.push(last@);
        assert(done =~= split_on(s@, sep));
    }
    out.push(last);
    out
}

/// Characters with the Unicode `White_Space` property, which is how
/// `char::is_whitespace` and `str::trim` define whitespace.
pub open spec fn is_white_space(c: char) -> bool {
    ||| ('\u{9}' <= c && c <= '\u{d}')
    ||| c == ' '
    ||| c == '\u{85}'
    ||| c == '\u{a0}'
    ||| c == '\u{1680}'
    ||| ('\u{2000}' <= c && c <= '\u{200a}')
    ||| c == '\u{2028}'
    ||| c == '\u{2029}'
    ||| c == '\u{202f}'
    ||| c == '\u{205f}'
    ||| c == '\u{3000}'
}

/// Number of leading whitespace characters.
pub open spec fn leading_ws(s: Seq<char>) -> nat
    decreases s.len(),
{
    if s.len() > 0 && is_white_space(s[0]) {
        1 + leading_ws(s.drop_first())
    } else {
        0
    }
}

/// Number of trailing whitespace characters.
pub open spec fn trailing_ws(s: Seq<char>) -> nat
    decreases s.len(),
{
    if s.len() > 0 && is_white_space(s.last()) {
        1 + trailing_ws(s.drop_last())
    } else {
        0
    }
}

/// `s` without leading and trailing whitespace.
pub open spec fn trimmed(s: Seq<char>) -> Seq<char> {
    let a = leading_ws(s);
    if a >= s.len() {
        Seq::empty()
    } else {
        s.subrange(a as int, s.len() - trailing_ws(s))
    }
}

/// `str::trim`: the text without leading and trailing whitespace.
#[verifier::external_body]
pub(crate) fn trim_text(s: &str) -> (r: String)
    ensures
        r@ == trimmed(s@),
{
    s.trim().to_string()
}

/// What `str::to_lowercase` gives (Unicode lowercase mapping).
pub uninterp spec fn unicode_lowercase(s: Seq<char>) -> Seq<char>;

/// What `str::to_uppercase` gives (Unicode uppercase mapping).
pub uninterp spec fn unicode_uppercase(s: Seq<char>) -> Seq<char>;

/// `str::to_lowercase`.
#[verifier::external_body]
pub(crate) fn lowercase(s: &str) -> (r: String)
    ensures
        r@ == unicode_lowercase(s@),
{
    s.to_lowercase()
}

/// `str::to_uppercase`.
#[verifier::external_body]
pub(crate) fn uppercase(s: &str) -> (r: String)
    ensures
        r@ == unicode_uppercase(s@),
{
    s.to_uppercase()
}

} // verus!
