//! Exact decimal amounts, carried as a mantissa and a base-ten scale.
//!
//! The arithmetic itself is done by `rust_decimal`; this module converts to
//! and from its representation and states what each operation gives back.

use vstd::prelude::*;

verus! {

/// Largest magnitude a decimal mantissa can take (96 bits).
pub const MAX_MANTISSA: i128 = 79228162514264337593543950335;

/// Largest supported scale (digits after the point).
pub const MAX_SCALE: u32 = 28;

/// A decimal number `mantissa / 10^scale`.
#[derive(Clone, Copy, Debug)]
pub struct Dec {
    pub mantissa: i128,
    pub scale: u32,
}

/// `10^n`.
pub open spec fn pow10(n: nat) -> int
    decreases n,
{
    if n == 0 {
        1
    } else {
        10 * pow10((n - 1) as nat)
    }
}

pub proof fn lemma_pow10_pos(n: nat)
    ensures
        pow10(n) > 0,
    decreases n,
{
    if n > 0 {
        lemma_pow10_pos((n - 1) as nat);
    }
}

/// `a < b` as numbers.
pub open spec fn dec_lt(a: Dec, b: Dec) -> bool {
    a.mantissa * pow10(b.scale as nat) < b.mantissa * pow10(a.scale as nat)
}

/// `<` on decimals is a strict weak order: irreflexive, transitive, and
/// whatever lies between two ordered values is above the first or below the
/// second.
pub proof fn lemma_dec_lt_order(a: Dec, b: Dec, c: Dec)
    ensures
        !dec_lt(a, a),
        dec_lt(a, b) && dec_lt(b, c) ==> dec_lt(a, c),
        dec_lt(a, b) ==> !dec_lt(b, a),
        dec_lt(a, b) ==> dec_lt(a, c) || dec_lt(c, b),
{
    lemma_pow10_pos(a.scale as nat);
    lemma_pow10_pos(b.scale as nat);
    lemma_pow10_pos(c.scale as nat);
    let pa = pow10(a.scale as nat);
    let pb = pow10(b.scale as nat);
    let pc = pow10(c.scale as nat);
    if dec_lt(a, b) && dec_lt(b, c) {
        let (x, y, z) = (a.mantissa as int, b.mantissa as int, c.mantissa as int);
        assert(x * pb * pc < y * pa * pc) by (nonlinear_arith)
            requires
                x * pb < y * pa,
                pc > 0,
        ;
        assert(y * pc * pa < z * pb * pa) by (nonlinear_arith)
            requires
                y * pc < z * pb,
                pa > 0,
        ;
        assert(x * pc * pb < z * pa * pb) by (nonlinear_arith)
            requires
                x * pb * pc < y * pa * pc,
                y * pc * pa < z * pb * pa,
        ;
        assert(x * pc < z * pa) by (nonlinear_arith)
            requires
                x * pc * pb < z * pa * pb,
                pb > 0,
        ;
    }
    if dec_lt(a, b) && !dec_lt(c, b) {
        let (x, y, z) = (a.mantissa as int, b.mantissa as int, c.mantissa as int);
        assert(x * pb * pc < y * pa * pc) by (nonlinear_arith)
            requires
                x * pb < y * pa,
                pc > 0,
        ;
        assert(y * pc * pa <= z * pb * pa) by (nonlinear_arith)
            requires
                y * pc <= z * pb,
                pa > 0,
        ;
        assert(x * pc * pb < z * pa * pb) by (nonlinear_arith)
            requires
                x * pb * pc < y * pa * pc,
                y * pc * pa <= z * pb * pa,
        ;
        assert(x * pc < z * pa) by (nonlinear_arith)
            requires
                x * pc * pb < z * pa * pb,
                pb > 0,
        ;
    }
}

/// `a <= b` as numbers.
pub open spec fn dec_le(a: Dec, b: Dec) -> bool {
    !dec_lt(b, a)
}

/// `a == b` as numbers (`1.0 == 1`).
pub open spec fn dec_eq(a: Dec, b: Dec) -> bool {
    a.mantissa * pow10(b.scale as nat) == b.mantissa * pow10(a.scale as nat)
}

/// The decimal zero.
pub open spec fn dec_zero() -> Dec {
    Dec { mantissa: 0, scale: 0 }
}

/// `|d|` at the same scale.
pub open spec fn dec_abs(d: Dec) -> Dec {
    if d.mantissa < 0 {
        Dec { mantissa: (-d.mantissa) as i128, scale: d.scale }
    } else {
        d
    }
}

/// The smaller of two values; the first when they are equal (`Ord::min`).
pub open spec fn dec_min(a: Dec, b: Dec) -> Dec {
    if dec_lt(b, a) {
        b
    } else {
        a
    }
}

/// What `rust_decimal` returns for a checked sum (`None` on overflow).
pub uninterp spec fn decimal_add(a: Dec, b: Dec) -> Option<Dec>;

/// What `rust_decimal` returns for a checked difference (`None` on overflow).
pub uninterp spec fn decimal_sub(a: Dec, b: Dec) -> Option<Dec>;

/// What `rust_decimal` returns for a checked product (`None` on overflow).
pub uninterp spec fn decimal_mul(a: Dec, b: Dec) -> Option<Dec>;

/// What `rust_decimal` returns for a checked quotient (`None` on overflow or
/// division by zero).
pub uninterp spec fn decimal_div(a: Dec, b: Dec) -> Option<Dec>;

/// What `rust_decimal` parses from a string (`None` when it is rejected).
pub uninterp spec fn decimal_parse(s: Seq<char>) -> Option<Dec>;

/// What `rust_decimal` prints for a value.
pub uninterp spec fn decimal_display(d: Dec) -> Seq<char>;

/// Sum of a sequence added left to right from zero, as `Iterator::sum`
/// does; `None` when some partial sum overflows.
pub open spec fn checked_sum(s: Seq<Dec>) -> Option<Dec>
    decreases s.len(),
{
    if s.len() == 0 {
        Some(dec_zero())
    } else {
        match checked_sum(s.drop_last()) {
            Some(acc) => decimal_add(acc, s.last()),
            None => None,
        }
    }
}

/// Every element is within the representation bounds.
pub open spec fn all_wf(s: Seq<Dec>) -> bool {
    forall|i: int| 0 <= i < s.len() ==> #[trigger] s[i].wf()
}

impl Dec {
    /// The representation bounds of the decimal engine.
    pub open spec fn wf(self) -> bool {
        &&& self.scale <= MAX_SCALE
        &&& -MAX_MANTISSA <= self.mantissa <= MAX_MANTISSA
    }

    /// Whether the value is within the representation bounds.
    pub fn in_bounds(&self) -> (r: bool)
        ensures
            r == self.wf(),
    {
        self.scale <= MAX_SCALE && -MAX_MANTISSA <= self.mantissa && self.mantissa <= MAX_MANTISSA
    }

    /// A decimal from its parts.
    pub fn new(mantissa: i128, scale: u32) -> (r: Dec)
        ensures
            r.mantissa == mantissa,
            r.scale == scale,
    {
        Dec { mantissa, scale }
    }

    /// Zero.
    pub fn zero() -> (r: Dec)
        ensures
            r == dec_zero(),
            r.wf(),
    {
        Dec { mantissa: 0, scale: 0 }
    }

    /// One.
    pub fn one() -> (r: Dec)
        ensures
            r.wf(),
            r.mantissa == 1,
            r.scale == 0,
    {
        Dec { mantissa: 1, scale: 0 }
    }

    /// True exactly when the value is zero.
    pub fn is_zero(&self) -> (r: bool)
        ensures
            r == (self.mantissa == 0),
            r == dec_eq(*self, dec_zero()),
    {
        proof {
            lemma_pow10_pos(self.scale as nat);
            assert(pow10(0) == 1);
            assert(self.mantissa * pow10(0nat) == self.mantissa);
            assert(0 * pow10(self.scale as nat) == 0);
        }
        self.mantissa == 0
    }

    /// Absolute value (same scale).
    pub fn abs(&self) -> (r: Dec)
        requires
            self.wf(),
        ensures
            r.wf(),
            r == dec_abs(*self),
    {
        if self.mantissa < 0 {
            Dec { mantissa: -self.mantissa, scale: self.scale }
        } else {
            *self
        }
    }

    /// Numeric `self < other`, as `rust_decimal` orders values.
    #[verifier::external_body]
    pub(crate) fn lt(&self, other: &Dec) -> (r: bool)
        requires
            self.wf(),
            other.wf(),
        ensures
            r == dec_lt(*self, *other),
    {
        let a = rust_decimal::Decimal::from_i128_with_scale(self.mantissa, self.scale);
        let b = rust_decimal::Decimal::from_i128_with_scale(other.mantissa, other.scale);
        a < b
    }

    /// Numeric `self <= other`.
    pub fn le(&self, other: &Dec) -> (r: bool)
        requires
            self.wf(),
            other.wf(),
        ensures
            r == dec_le(*self, *other),
    {
        !other.lt(self)
    }

    /// Numeric equality.
    pub fn eq(&self, other: &Dec) -> (r: bool)
        requires
            self.wf(),
            other.wf(),
        ensures
            r == dec_eq(*self, *other),
    {
        !self.lt(other) && !other.lt(self)
    }

    /// The smaller of two values; the first when they are equal, as
    /// `Ord::min` does.
    pub fn min(&self, other: &Dec) -> (r: Dec)
        requires
            self.wf(),
            other.wf(),
        ensures
            r == dec_min(*self, *other),
    {
        if other.lt(self) {
            *other
        } else {
            *self
        }
    }

    /// `self + other` through `rust_decimal::Decimal::checked_add`, which
    /// gives `other` back unchanged when `self` is zero, and `self` back
    /// when only `other` is.
    #[verifier::external_body]
    pub(crate) fn checked_add(&self, other: &Dec) -> (r: Option<Dec>)
        requires
            self.wf(),
            other.wf(),
        ensures
            r == decimal_add(*self, *other),
            r matches Some(x) ==> x.wf(),
            self.mantissa == 0 ==> r == Some(*other),
            self.mantissa != 0 && other.mantissa == 0 ==> r == Some(*self),
    {
        let a = rust_decimal::Decimal::from_i128_with_scale(self.mantissa, self.scale);
        let b = rust_decimal::Decimal::from_i128_with_scale(other.mantissa, other.scale);
        a.checked_add(b).map(|x| Dec { mantissa: x.mantissa(), scale: x.scale() })
    }

    /// `self - other` through `rust_decimal::Decimal::checked_sub`, which
    /// gives `self` back unchanged when `other` is zero and `self` is not.
    #[verifier::external_body]
    pub(crate) fn checked_sub(&self, other: &Dec) -> (r: Option<Dec>)
        requires
            self.wf(),
            other.wf(),
        ensures
            r == decimal_sub(*self, *other),
            r matches Some(x) ==> x.wf(),
            self.mantissa != 0 && other.mantissa == 0 ==> r == Some(*self),
    {
        let a = rust_decimal::Decimal::from_i128_with_scale(self.mantissa, self.scale);
        let b = rust_decimal::Decimal::from_i128_with_scale(other.mantissa, other.scale);
        a.checked_sub(b).map(|x| Dec { mantissa: x.mantissa(), scale: x.scale() })
    }

    /// `self * other` through `rust_decimal::Decimal::checked_mul`.
    #[verifier::external_body]
    pub(crate) fn checked_mul(&self, other: &Dec) -> (r: Option<Dec>)
        requires
            self.wf(),
            other.wf(),
        ensures
            r == decimal_mul(*self, *other),
            r matches Some(x) ==> x.wf(),
    {
        let a = rust_decimal::Decimal::from_i128_with_scale(self.mantissa, self.scale);
        let b = rust_decimal::Decimal::from_i128_with_scale(other.mantissa, other.scale);
        a.checked_mul(b).map(|x| Dec { mantissa: x.mantissa(), scale: x.scale() })
    }

    /// `self / other` through `rust_decimal::Decimal::checked_div`, which
    /// gives `None` for a zero divisor.
    #[verifier::external_body]
    pub(crate) fn checked_div(&self, other: &Dec) -> (r: Option<Dec>)
        requires
            self.wf(),
            other.wf(),
        ensures
            r == decimal_div(*self, *other),
            r matches Some(x) ==> x.wf(),
            other.mantissa == 0 ==> r is None,
    {
        let a = rust_decimal::Decimal::from_i128_with_scale(self.mantissa, self.scale);
        let b = rust_decimal::Decimal::from_i128_with_scale(other.mantissa, other.scale);
        a.checked_div(b).map(|x| Dec { mantissa: x.mantissa(), scale: x.scale() })
    }

    /// Parse through `rust_decimal`'s `FromStr`.
    #[verifier::external_body]
    pub(crate) fn parse(s: &str) -> (r: Option<Dec>)
        ensures
            r == decimal_parse(s@),
            r matches Some(x) ==> x.wf(),
    {
        <rust_decimal::Decimal as std::str::FromStr>::from_str(s)
            .ok()
            .map(|x| Dec { mantissa: x.mantissa(), scale: x.scale() })
    }

    /// Render through `rust_decimal`'s `Display`.
    #[verifier::external_body]
    pub(crate) fn to_text(&self) -> (r: String)
        requires
            self.wf(),
        ensures
            r@ == decimal_display(*self),
    {
        rust_decimal::Decimal::from_i128_with_scale(self.mantissa, self.scale).to_string()
    }
}

/// Sum of a slice, left to right from zero; `None` on overflow.
pub fn sum_checked(v: &Vec<Dec>) -> (r: Option<Dec>)
    requires
        all_wf(v@),
    ensures
        r == checked_sum(v@),
        r matches Some(x) ==> x.wf(),
{
    let mut acc = Dec::zero();
    let mut i: usize = 0;
    while i < v.len()
        invariant
            0 <= i <= v.len(),
            all_wf(v@),
            acc.wf(),
            checked_sum(v@.take(i as int)) == Some(acc),
        decreases v.len() - i,
    {
        assert(v@.take(i + 1).drop_last() =~= v@.take(i as int));
        assert(v@.take(i + 1).last() == v@[i as int]);
        match acc.checked_add(&v[i]) {
            Some(x) => {
                acc = x;
            },
            None => {
                proof {
                    lemma_checked_sum_none_propagates(v@, (i + 1) as int);
                }
                return None;
            },
        }
        i += 1;
    }
    assert(v@.take(v.len() as int) =~= v@);
    Some(acc)
}

/// Once a prefix sum overflows, the whole sum does.
pub proof fn lemma_checked_sum_none_propagates(s: Seq<Dec>, k: int)
    requires
        0 <= k <= s.len(),
        checked_sum(s.take(k)) is None,
    ensures
        checked_sum(s) is None,
    decreases s.len() - k,
{
    if k < s.len() {
        assert(s.take(k + 1).drop_last() =~= s.take(k));
        lemma_checked_sum_none_propagates(s, k + 1);
    } else {
        assert(s.take(k) =~= s);
    }
}

} // verus!
