//! Exact rational numbers over `i128`, with a ghost model over `int`.
//!
//! Every executable operation states, and Verus proves, that it computes the
//! corresponding mathematical operation on the ghost model exactly: there is
//! no rounding anywhere in this module.

use vstd::prelude::*;

verus! {

/// A mathematical rational number: a signed numerator over a positive
/// denominator, both unbounded integers. Ghost-only; the value it stands
/// for is `n / d`. Two `Rat` values denote the same rational exactly when
/// `rat_eq` holds of them.
pub struct Rat {
    pub n: int,
    pub d: int,
}

/// A `Rat` is well formed when its denominator is positive.
pub open spec fn rat_wf(r: Rat) -> bool {
    r.d > 0
}

/// The rationals `a` and `b` denote the same value (cross multiplication).
pub open spec fn rat_eq(a: Rat, b: Rat) -> bool {
    a.n * b.d == b.n * a.d
}

/// The value of `a` is at most the value of `b` (for well-formed operands).
pub open spec fn rat_le(a: Rat, b: Rat) -> bool {
    a.n * b.d <= b.n * a.d
}

/// The value of `a` is strictly below the value of `b` (for well-formed operands).
pub open spec fn rat_lt(a: Rat, b: Rat) -> bool {
    a.n * b.d < b.n * a.d
}

/// The integer `n` as a rational.
pub open spec fn rat_from_int(n: int) -> Rat {
    Rat { n: n, d: 1 }
}

/// Exact rational sum.
pub open spec fn rat_add(a: Rat, b: Rat) -> Rat {
    Rat { n: a.n * b.d + b.n * a.d, d: a.d * b.d }
}

/// Exact rational difference.
pub open spec fn rat_sub(a: Rat, b: Rat) -> Rat {
    Rat { n: a.n * b.d - b.n * a.d, d: a.d * b.d }
}

/// Exact rational product.
pub open spec fn rat_mul(a: Rat, b: Rat) -> Rat {
    Rat { n: a.n * b.n, d: a.d * b.d }
}

/// Exact rational quotient, with the sign moved into the numerator so that
/// the denominator stays positive. Meaningful only when `b.n != 0`.
pub open spec fn rat_div(a: Rat, b: Rat) -> Rat {
    if b.n >= 0 {
        Rat { n: a.n * b.d, d: a.d * b.n }
    } else {
        Rat { n: -(a.n * b.d), d: a.d * -b.n }
    }
}

/// Both components of `r` are bounded by `m` in magnitude (and the
/// denominator is positive). Used to keep `i128` products in range.
pub open spec fn rat_in_bound(r: Rat, m: int) -> bool {
    &&& -m <= r.n <= m
    &&& 0 < r.d <= m
}

/// Magnitude bound for a product of bounded integers.
pub proof fn lemma_mul_in_range(a: int, b: int, ma: int, mb: int)
    by (nonlinear_arith)
    requires
        -ma <= a <= ma,
        -mb <= b <= mb,
    ensures
        -(ma * mb) <= a * b <= ma * mb,
{
}

/// A product of well-formed rationals is well formed.
pub proof fn lemma_rat_mul_wf(a: Rat, b: Rat)
    requires
        rat_wf(a),
        rat_wf(b),
    ensures
        rat_wf(rat_mul(a, b)),
{
    assert(a.d * b.d > 0) by (nonlinear_arith)
        requires
            a.d > 0,
            b.d > 0,
    ;
}

/// A difference of well-formed rationals is well formed.
pub proof fn lemma_rat_sub_wf(a: Rat, b: Rat)
    requires
        rat_wf(a),
        rat_wf(b),
    ensures
        rat_wf(rat_sub(a, b)),
{
    assert(a.d * b.d > 0) by (nonlinear_arith)
        requires
            a.d > 0,
            b.d > 0,
    ;
}

/// A quotient by a nonzero rational is well formed.
pub proof fn lemma_rat_div_wf(a: Rat, b: Rat)
    requires
        rat_wf(a),
        rat_wf(b),
        b.n != 0,
    ensures
        rat_wf(rat_div(a, b)),
{
    if b.n >= 0 {
        assert(a.d * b.n > 0) by (nonlinear_arith)
            requires
                a.d > 0,
                b.n > 0,
        ;
    } else {
        assert(a.d * -b.n > 0) by (nonlinear_arith)
            requires
                a.d > 0,
                b.n < 0,
        ;
    }
}

/// `rat_le` is transitive over well-formed rationals.
pub proof fn lemma_rat_le_trans(a: Rat, b: Rat, c: Rat)
    requires
        rat_wf(a),
        rat_wf(b),
        rat_wf(c),
        rat_le(a, b),
        rat_le(b, c),
    ensures
        rat_le(a, c),
{
    assert(a.n * c.d <= c.n * a.d) by (nonlinear_arith)
        requires
            a.d > 0,
            b.d > 0,
            c.d > 0,
            a.n * b.d <= b.n * a.d,
            b.n * c.d <= c.n * b.d,
    ;
}

/// `rat_le` respects `rat_eq`: replacing both sides of an inequality by
/// equal-valued rationals preserves it.
pub proof fn lemma_rat_le_congruence(a: Rat, a2: Rat, b: Rat, b2: Rat)
    requires
        rat_wf(a),
        rat_wf(a2),
        rat_wf(b),
        rat_wf(b2),
        rat_eq(a, a2),
        rat_eq(b, b2),
        rat_le(a2, b2),
    ensures
        rat_le(a, b),
{
    assert(a.n * b.d <= b.n * a.d) by (nonlinear_arith)
        requires
            a.d > 0,
            a2.d > 0,
            b.d > 0,
            b2.d > 0,
            a.n * a2.d == a2.n * a.d,
            b.n * b2.d == b2.n * b.d,
            a2.n * b2.d <= b2.n * a2.d,
    ;
}

/// Multiplying both operands of an inequality between nonnegative rationals
/// by larger nonnegative rationals preserves the inequality.
pub proof fn lemma_rat_mul_le_nonneg(a1: Rat, a2: Rat, b1: Rat, b2: Rat)
    requires
        rat_wf(a1),
        rat_wf(a2),
        rat_wf(b1),
        rat_wf(b2),
        rat_le(rat_from_int(0), a2),
        rat_le(a2, a1),
        rat_le(rat_from_int(0), b2),
        rat_le(b2, b1),
    ensures
        rat_le(rat_mul(a2, b2), rat_mul(a1, b1)),
{
    assert((a2.n * b2.n) * (a1.d * b1.d) <= (a1.n * b1.n) * (a2.d * b2.d)) by (nonlinear_arith)
        requires
            a1.d > 0,
            a2.d > 0,
            b1.d > 0,
            b2.d > 0,
            a2.n >= 0,
            b2.n >= 0,
            a2.n * a1.d <= a1.n * a2.d,
            b2.n * b1.d <= b1.n * b2.d,
    ;
}

/// Multiplying on the left by a nonnegative rational is monotone.
pub proof fn lemma_rat_mul_le_left(c: Rat, x: Rat, y: Rat)
    requires
        rat_wf(c),
        rat_wf(x),
        rat_wf(y),
        c.n >= 0,
        rat_le(x, y),
    ensures
        rat_le(rat_mul(c, x), rat_mul(c, y)),
{
    assert((c.n * x.n) * (c.d * y.d) <= (c.n * y.n) * (c.d * x.d)) by (nonlinear_arith)
        requires
            c.d > 0,
            x.d > 0,
            y.d > 0,
            c.n >= 0,
            x.n * y.d <= y.n * x.d,
    ;
}

/// Multiplying on the right by a nonnegative rational is monotone.
pub proof fn lemma_rat_mul_le_right(c: Rat, x: Rat, y: Rat)
    requires
        rat_wf(c),
        rat_wf(x),
        rat_wf(y),
        c.n >= 0,
        rat_le(x, y),
    ensures
        rat_le(rat_mul(x, c), rat_mul(y, c)),
{
    assert((x.n * c.n) * (y.d * c.d) <= (y.n * c.n) * (x.d * c.d)) by (nonlinear_arith)
        requires
            c.d > 0,
            x.d > 0,
            y.d > 0,
            c.n >= 0,
            x.n * y.d <= y.n * x.d,
    ;
}

/// Subtraction from a fixed rational reverses an inequality.
pub proof fn lemma_rat_sub_antitone(k: Rat, x: Rat, y: Rat)
    requires
        rat_wf(k),
        rat_wf(x),
        rat_wf(y),
        rat_le(x, y),
    ensures
        rat_le(rat_sub(k, y), rat_sub(k, x)),
{
    assert((k.n * y.d - y.n * k.d) * (k.d * x.d) <= (k.n * x.d - x.n * k.d) * (k.d * y.d))
        by (nonlinear_arith)
        requires
            k.d > 0,
            x.d > 0,
            y.d > 0,
            x.n * y.d <= y.n * x.d,
    ;
}

/// A product of nonnegative rationals is nonnegative.
pub proof fn lemma_rat_mul_nonneg(a: Rat, b: Rat)
    requires
        rat_wf(a),
        rat_wf(b),
        rat_le(rat_from_int(0), a),
        rat_le(rat_from_int(0), b),
    ensures
        rat_le(rat_from_int(0), rat_mul(a, b)),
{
    assert(a.n * b.n >= 0) by (nonlinear_arith)
        requires
            a.n >= 0,
            b.n >= 0,
    ;
}

/// Multiplying by a positive rational and dividing by it again leaves the
/// value unchanged: `((v * d) * m) / d` equals `v * m`.
pub proof fn lemma_rat_div_product_cancel(v: Rat, d: Rat, m: Rat)
    requires
        rat_wf(v),
        rat_wf(d),
        rat_wf(m),
        d.n > 0,
    ensures
        rat_eq(rat_div(rat_mul(rat_mul(v, d), m), d), rat_mul(v, m)),
{
    assert(((v.n * d.n) * m.n * d.d) * (v.d * m.d) == (v.n * m.n) * ((v.d * d.d) * m.d * d.n))
        by (nonlinear_arith);
}

/// Dividing a nonnegative rational by a larger positive divisor gives a
/// smaller quotient.
pub proof fn lemma_rat_div_antitone(c: Rat, x: Rat, y: Rat)
    requires
        rat_wf(c),
        rat_wf(x),
        rat_wf(y),
        c.n >= 0,
        x.n > 0,
        rat_le(x, y),
    ensures
        rat_le(rat_div(c, y), rat_div(c, x)),
{
    assert(y.n > 0) by (nonlinear_arith)
        requires
            x.d > 0,
            y.d > 0,
            x.n > 0,
            x.n * y.d <= y.n * x.d,
    ;
    assert((c.n * y.d) * (c.d * x.n) <= (c.n * x.d) * (c.d * y.n)) by (nonlinear_arith)
        requires
            c.d > 0,
            x.d > 0,
            y.d > 0,
            c.n >= 0,
            x.n * y.d <= y.n * x.d,
    ;
}

/// An exact rational number, executable: an `i128` numerator over a positive
/// `i128` denominator. The ghost view is the corresponding `Rat`.
#[derive(Clone, Copy, Debug)]
pub struct Ratio {
    pub num: i128,
    pub den: i128,
}

impl View for Ratio {
    type V = Rat;

    open spec fn view(&self) -> Rat {
        Rat { n: self.num as int, d: self.den as int }
    }
}

impl Ratio {
    /// The view has a positive denominator.
    pub open spec fn wf(&self) -> bool {
        self.den > 0
    }

    /// The rational `num / den`.
    pub fn new(num: i128, den: i128) -> (r: Ratio)
        requires
            den > 0,
        ensures
            r.wf(),
            r@ == (Rat { n: num as int, d: den as int }),
    {
        Ratio { num, den }
    }

    /// The integer `n` as a rational.
    pub fn from_int(n: i128) -> (r: Ratio)
        ensures
            r.wf(),
            r@ == rat_from_int(n as int),
    {
        Ratio { num: n, den: 1 }
    }

    /// Exact sum.
    pub fn plus(&self, other: &Ratio) -> (r: Ratio)
        requires
            self.wf(),
            other.wf(),
            i128::MIN <= self.num * other.den <= i128::MAX,
            i128::MIN <= other.num * self.den <= i128::MAX,
            i128::MIN <= self.num * other.den + other.num * self.den <= i128::MAX,
            self.den * other.den <= i128::MAX,
        ensures
            r.wf(),
            r@ == rat_add(self@, other@),
    {
        proof {
            assert(self.den * other.den > 0) by (nonlinear_arith)
                requires
                    self.den > 0,
                    other.den > 0,
            ;
        }
        Ratio { num: self.num * other.den + other.num * self.den, den: self.den * other.den }
    }

    /// Exact difference.
    pub fn minus(&self, other: &Ratio) -> (r: Ratio)
        requires
            self.wf(),
            other.wf(),
            i128::MIN <= self.num * other.den <= i128::MAX,
            i128::MIN <= other.num * self.den <= i128::MAX,
            i128::MIN <= self.num * other.den - other.num * self.den <= i128::MAX,
            self.den * other.den <= i128::MAX,
        ensures
            r.wf(),
            r@ == rat_sub(self@, other@),
    {
        proof {
            assert(self.den * other.den > 0) by (nonlinear_arith)
                requires
                    self.den > 0,
                    other.den > 0,
            ;
        }
        Ratio { num: self.num * other.den - other.num * self.den, den: self.den * other.den }
    }

    /// Exact product.
    pub fn times(&self, other: &Ratio) -> (r: Ratio)
        requires
            self.wf(),
            other.wf(),
            i128::MIN <= self.num * other.num <= i128::MAX,
            self.den * other.den <= i128::MAX,
        ensures
            r.wf(),
            r@ == rat_mul(self@, other@),
    {
        proof {
            assert(self.den * other.den > 0) by (nonlinear_arith)
                requires
                    self.den > 0,
                    other.den > 0,
            ;
        }
        Ratio { num: self.num * other.num, den: self.den * other.den }
    }

    /// Exact quotient. The divisor must be nonzero; the sign of the divisor
    /// is moved into the numerator so the denominator stays positive.
    pub fn div_by(&self, other: &Ratio) -> (r: Ratio)
        requires
            self.wf(),
            other.wf(),
            other.num != 0,
            -i128::MAX <= other.num,
            -i128::MAX <= self.num * other.den <= i128::MAX,
            -i128::MAX <= self.den * other.num <= i128::MAX,
        ensures
            r.wf(),
            r@ == rat_div(self@, other@),
    {
        if other.num > 0 {
            proof {
                assert(self.den * other.num > 0) by (nonlinear_arith)
                    requires
                        self.den > 0,
                        other.num > 0,
                ;
            }
            Ratio { num: self.num * other.den, den: self.den * other.num }
        } else {
            proof {
                assert(self.den * (-other.num) > 0 && self.den * (-other.num) == -(
                self.den * other.num)) by (nonlinear_arith)
                    requires
                        self.den > 0,
                        other.num < 0,
                ;
            }
            Ratio { num: -(self.num * other.den), den: self.den * -other.num }
        }
    }

    /// Exact comparison: the value of `self` is at most the value of `other`.
    pub fn is_le(&self, other: &Ratio) -> (r: bool)
        requires
            self.wf(),
            other.wf(),
            i128::MIN <= self.num * other.den <= i128::MAX,
            i128::MIN <= other.num * self.den <= i128::MAX,
        ensures
            r == rat_le(self@, other@),
    {
        self.num * other.den <= other.num * self.den
    }

    /// Exact comparison: the value of `self` is strictly below the value of `other`.
    pub fn is_lt(&self, other: &Ratio) -> (r: bool)
        requires
            self.wf(),
            other.wf(),
            i128::MIN <= self.num * other.den <= i128::MAX,
            i128::MIN <= other.num * self.den <= i128::MAX,
        ensures
            r == rat_lt(self@, other@),
    {
        self.num * other.den < other.num * self.den
    }
}

} // verus!
