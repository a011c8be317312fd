//! Exact rational numbers on 64-bit numerator and denominator.
//!
//! Every quantity of the simulation core (positions, velocities, radii,
//! restitution coefficients) is a `Rat`: an integer numerator over a positive
//! integer denominator. Operations compute in 128-bit intermediates, reduce
//! the result by the greatest common divisor, and report `None` when the
//! reduced result does not fit the 64-bit fields, so arithmetic is exact or
//! explicitly refused, never silently rounded.

use vstd::prelude::*;
use vstd::arithmetic::div_mod::{
    lemma_fundamental_div_mod, lemma_mod_multiples_basic, lemma_div_multiples_vanish,
    lemma_mod_self_0, lemma_small_mod, lemma_div_of0, lemma_div_by_self,
};

verus! {

/// Magnitude of an integer, as a natural number.
pub open spec fn abs_nat(n: int) -> nat {
    if n < 0 {
        (-n) as nat
    } else {
        n as nat
    }
}

/// Greatest common divisor, by Euclid's rule.
pub open spec fn gcd(a: nat, b: nat) -> nat
    decreases b,
{
    if b == 0 {
        a
    } else {
        gcd(b, a % b)
    }
}

/// The greatest common divisor of two naturals, not both zero, is positive
/// and divides both.
pub proof fn lemma_gcd_divides(a: nat, b: nat)
    requires
        a > 0 || b > 0,
    ensures
        gcd(a, b) > 0,
        a % gcd(a, b) == 0,
        b % gcd(a, b) == 0,
    decreases b,
{
    if b == 0 {
        lemma_mod_self_0(a as int);
        lemma_small_mod(0nat, a);
    } else {
        let r = a % b;
        lemma_gcd_divides(b, r);
        let g = gcd(b, r);
        lemma_fundamental_div_mod(a as int, b as int);
        lemma_fundamental_div_mod(b as int, g as int);
        lemma_fundamental_div_mod(r as int, g as int);
        let qb = b as int / g as int;
        let qr = r as int / g as int;
        let q = qb * (a as int / b as int) + qr;
        assert(a as int == q * (g as int)) by (nonlinear_arith)
            requires
                a as int == (b as int) * (a as int / b as int) + r,
                b as int == (g as int) * qb,
                r as int == (g as int) * qr,
                q == qb * (a as int / b as int) + qr,
        ;
        lemma_mod_multiples_basic(q, g as int);
    }
}

/// Reduction does not change the denoted value: when `norm(n, d)` fits,
/// the packed rational still stands in the exact ratio `n / d`.
pub proof fn lemma_norm_is_ratio(n: int, d: int)
    requires
        0 < d,
    ensures
        norm(n, d) matches Some(q) ==> q.is_ratio(n, d),
{
    lemma_gcd_divides(abs_nat(n), d as nat);
    let g = gcd(abs_nat(n), d as nat) as int;
    lemma_fundamental_div_mod(abs_nat(n) as int, g);
    lemma_fundamental_div_mod(d, g);
    let m = abs_nat(n) as int;
    let mq = m / g;
    if n < 0 {
        assert(n == g * (-mq)) by (nonlinear_arith)
            requires
                m == g * mq,
                n == -m,
        ;
        lemma_div_multiples_vanish(-mq, g);
        assert(norm_num(n, d) == -mq);
    }
    if norm(n, d) is Some {
        let q = norm(n, d)->Some_0;
        assert(q.num * d == n * q.den) by (nonlinear_arith)
            requires
                n == g * (q.num as int),
                d == g * (q.den as int),
                g > 0,
        ;
    }
}

/// A reduced rational that fits is well formed: its denominator stays
/// positive and its numerator stays above `-i64::MAX`.
pub proof fn lemma_norm_wf(n: int, d: int)
    requires
        0 < d,
    ensures
        norm(n, d) matches Some(q) ==> q.wf(),
{
    lemma_gcd_divides(abs_nat(n), d as nat);
    let g = gcd(abs_nat(n), d as nat) as int;
    lemma_fundamental_div_mod(d, g);
    assert(norm_den(n, d) >= 1) by (nonlinear_arith)
        requires
            d == g * (d / g),
            d >= 1,
            g > 0,
            norm_den(n, d) == d / g,
    ;
}

/// The reduced form of `0 / d` is exactly `0 / 1`.
pub proof fn lemma_norm_zero(d: int)
    requires
        0 < d,
    ensures
        norm(0, d) == Some(Rat { num: 0, den: 1 }),
{
    assert(abs_nat(0) == 0);
    lemma_small_mod(0nat, d as nat);
    assert(gcd(0, d as nat) == gcd(d as nat, 0));
    assert(gcd(abs_nat(0), d as nat) == d);
    lemma_div_of0(d);
    lemma_div_by_self(d);
}

/// Value equality of rationals is transitive (for positive denominators).
pub proof fn lemma_rat_eq_trans(a: Rat, b: Rat, c: Rat)
    requires
        a.den > 0,
        b.den > 0,
        c.den > 0,
        rat_eq(a, b),
        rat_eq(b, c),
    ensures
        rat_eq(a, c),
{
    assert(a.num * c.den == c.num * a.den) by (nonlinear_arith)
        requires
            a.num * b.den == b.num * a.den,
            b.num * c.den == c.num * b.den,
            b.den > 0,
    ;
}

/// An exact rational number. Valid values keep `den` positive and `num`
/// above `-i64::MAX`, so that negation never overflows.
#[derive(Clone, Copy, PartialEq, Eq, Structural, Debug)]
pub struct Rat {
    pub num: i64,
    pub den: i64,
}

/// Numerator of `n / d` after dividing out the greatest common divisor.
pub open spec fn norm_num(n: int, d: int) -> int {
    n / (gcd(abs_nat(n), d as nat) as int)
}

/// Denominator of `n / d` after dividing out the greatest common divisor.
pub open spec fn norm_den(n: int, d: int) -> int {
    d / (gcd(abs_nat(n), d as nat) as int)
}

/// The reduced form of the exact ratio `n / d` (for `d > 0`), or `None`
/// when even the reduced numerator or denominator falls outside the valid
/// 64-bit range.
pub open spec fn norm(n: int, d: int) -> Option<Rat> {
    let nn = norm_num(n, d);
    let dd = norm_den(n, d);
    if -i64::MAX <= nn && nn <= i64::MAX && dd <= i64::MAX {
        Some(Rat { num: nn as i64, den: dd as i64 })
    } else {
        None
    }
}

/// Exact numerator of the sum `a + b` over the common denominator
/// `a.den * b.den`.
pub open spec fn sum_num(a: Rat, b: Rat) -> int {
    a.num * b.den + b.num * a.den
}

/// Exact numerator of the difference `a - b` over `a.den * b.den`.
pub open spec fn diff_num(a: Rat, b: Rat) -> int {
    a.num * b.den - b.num * a.den
}

/// Reduced exact sum of two rationals.
pub open spec fn spec_add(a: Rat, b: Rat) -> Option<Rat> {
    norm(sum_num(a, b), a.den * b.den)
}

/// Reduced exact difference of two rationals.
pub open spec fn spec_sub(a: Rat, b: Rat) -> Option<Rat> {
    norm(diff_num(a, b), a.den * b.den)
}

/// Reduced exact product of two rationals.
pub open spec fn spec_mul(a: Rat, b: Rat) -> Option<Rat> {
    norm(a.num * b.num, a.den * b.den)
}

/// Reduced exact mean of two rationals.
pub open spec fn spec_avg(a: Rat, b: Rat) -> Option<Rat> {
    norm(sum_num(a, b), 2 * (a.den * b.den))
}

/// Value equality of two rationals, by cross-multiplication.
pub open spec fn rat_eq(a: Rat, b: Rat) -> bool {
    a.num * b.den == b.num * a.den
}

/// `a <= b` as rational values (valid when both denominators are positive).
pub open spec fn spec_le(a: Rat, b: Rat) -> bool {
    a.num * b.den <= b.num * a.den
}

/// `a < b` as rational values (valid when both denominators are positive).
pub open spec fn spec_lt(a: Rat, b: Rat) -> bool {
    a.num * b.den < b.num * a.den
}

impl Rat {
    /// A value is well formed when its denominator is positive and its
    /// numerator can be negated without overflow.
    pub open spec fn wf(self) -> bool {
        0 < self.den && -i64::MAX <= self.num
    }

    /// The rational `self` denotes the exact ratio `n / d`.
    pub open spec fn is_ratio(self, n: int, d: int) -> bool {
        self.num * d == n * self.den
    }

    /// Exact negation at the specification level.
    pub open spec fn spec_neg(self) -> Rat {
        Rat { num: (-self.num) as i64, den: self.den }
    }

    /// Exact magnitude at the specification level.
    pub open spec fn spec_abs(self) -> Rat {
        if self.num < 0 {
            Rat { num: (-self.num) as i64, den: self.den }
        } else {
            self
        }
    }

    /// The value zero.
    pub fn zero() -> (r: Rat)
        ensures
            r == (Rat { num: 0, den: 1 }),
    {
        Rat { num: 0, den: 1 }
    }

    /// The value one.
    pub fn one() -> (r: Rat)
        ensures
            r == (Rat { num: 1, den: 1 }),
    {
        Rat { num: 1, den: 1 }
    }

    /// The integer `i` as a rational.
    pub fn from_int(i: i64) -> (r: Rat)
        requires
            -i64::MAX <= i,
        ensures
            r == (Rat { num: i, den: 1 }),
            r.wf(),
    {
        Rat { num: i, den: 1 }
    }

    /// Builds the reduced rational `num / den`. Returns `Some` exactly when
    /// `den` is positive and the reduced ratio fits the valid range.
    pub fn new(num: i64, den: i64) -> (r: Option<Rat>)
        ensures
            den <= 0 ==> r is None,
            den > 0 ==> r == norm(num as int, den as int),
            r matches Some(q) ==> q.wf() && q.is_ratio(num as int, den as int),
    {
        if den <= 0 {
            None
        } else {
            rat_norm(num as i128, den as i128)
        }
    }

    /// Exact negation.
    pub fn neg(self) -> (r: Rat)
        requires
            self.wf(),
        ensures
            r == self.spec_neg(),
            r.wf(),
    {
        Rat { num: -self.num, den: self.den }
    }

    /// Exact magnitude.
    pub fn abs(self) -> (r: Rat)
        requires
            self.wf(),
        ensures
            r == self.spec_abs(),
            r.wf(),
    {
        if self.num < 0 {
            Rat { num: -self.num, den: self.den }
        } else {
            self
        }
    }

    /// Checked exact addition: `Some` exactly when the reduced sum fits.
    pub fn checked_add(self, other: Rat) -> (r: Option<Rat>)
        requires
            self.wf(),
            other.wf(),
        ensures
            r == spec_add(self, other),
            r matches Some(q) ==> q.wf() && q.is_ratio(sum_num(self, other), self.den * other.den),
    {
        proof {
            lemma_product_bounds(self.num as int, other.den as int);
            lemma_product_bounds(other.num as int, self.den as int);
            lemma_den_product(self.den as int, other.den as int);
        }
        let n: i128 = (self.num as i128) * (other.den as i128)
            + (other.num as i128) * (self.den as i128);
        let d: i128 = (self.den as i128) * (other.den as i128);
        rat_norm(n, d)
    }

    /// Checked exact subtraction: `Some` exactly when the reduced
    /// difference fits.
    pub fn checked_sub(self, other: Rat) -> (r: Option<Rat>)
        requires
            self.wf(),
            other.wf(),
        ensures
            r == spec_sub(self, other),
            r matches Some(q) ==> q.wf() && q.is_ratio(diff_num(self, other), self.den * other.den),
    {
        proof {
            lemma_product_bounds(self.num as int, other.den as int);
            lemma_product_bounds(other.num as int, self.den as int);
            lemma_den_product(self.den as int, other.den as int);
        }
        let n: i128 = (self.num as i128) * (other.den as i128)
            - (other.num as i128) * (self.den as i128);
        let d: i128 = (self.den as i128) * (other.den as i128);
        rat_norm(n, d)
    }

    /// Checked exact multiplication: `Some` exactly when the reduced
    /// product fits.
    pub fn checked_mul(self, other: Rat) -> (r: Option<Rat>)
        requires
            self.wf(),
            other.wf(),
        ensures
            r == spec_mul(self, other),
            r matches Some(q) ==> q.wf() && q.is_ratio(self.num * other.num, self.den * other.den),
    {
        proof {
            lemma_product_bounds(self.num as int, other.num as int);
            lemma_den_product(self.den as int, other.den as int);
        }
        let n: i128 = (self.num as i128) * (other.num as i128);
        let d: i128 = (self.den as i128) * (other.den as i128);
        rat_norm(n, d)
    }

    /// Checked exact mean of two values: `Some` exactly when the reduced
    /// mean fits.
    pub fn checked_avg(self, other: Rat) -> (r: Option<Rat>)
        requires
            self.wf(),
            other.wf(),
        ensures
            r == spec_avg(self, other),
            r matches Some(q) ==> q.wf() && q.is_ratio(
                sum_num(self, other),
                2 * (self.den * other.den),
            ),
    {
        proof {
            lemma_product_bounds(self.num as int, other.den as int);
            lemma_product_bounds(other.num as int, self.den as int);
            lemma_den_product(self.den as int, other.den as int);
        }
        let n: i128 = (self.num as i128) * (other.den as i128)
            + (other.num as i128) * (self.den as i128);
        let d: i128 = 2 * ((self.den as i128) * (other.den as i128));
        rat_norm(n, d)
    }

    /// Value comparison `self <= other`.
    pub fn le(self, other: Rat) -> (r: bool)
        requires
            self.wf(),
            other.wf(),
        ensures
            r == spec_le(self, other),
    {
        proof {
            lemma_product_bounds(self.num as int, other.den as int);
            lemma_product_bounds(other.num as int, self.den as int);
        }
        (self.num as i128) * (other.den as i128) <= (other.num as i128) * (self.den as i128)
    }

    /// Value comparison `self < other`.
    pub fn lt(self, other: Rat) -> (r: bool)
        requires
            self.wf(),
            other.wf(),
        ensures
            r == spec_lt(self, other),
    {
        proof {
            lemma_product_bounds(self.num as int, other.den as int);
            lemma_product_bounds(other.num as int, self.den as int);
        }
        (self.num as i128) * (other.den as i128) < (other.num as i128) * (self.den as i128)
    }

    /// Value equality `self == other` (as rational values, not field by
    /// field).
    pub fn eq_val(self, other: Rat) -> (r: bool)
        requires
            self.wf(),
            other.wf(),
        ensures
            r == rat_eq(self, other),
    {
        proof {
            lemma_product_bounds(self.num as int, other.den as int);
            lemma_product_bounds(other.num as int, self.den as int);
        }
        (self.num as i128) * (other.den as i128) == (other.num as i128) * (self.den as i128)
    }

    /// Whether the value is strictly negative.
    pub fn is_neg(self) -> (r: bool)
        requires
            self.wf(),
        ensures
            r == (self.num < 0),
    {
        self.num < 0
    }

    /// Whether the value is strictly positive.
    pub fn is_pos(self) -> (r: bool)
        requires
            self.wf(),
        ensures
            r == (self.num > 0),
    {
        self.num > 0
    }
}

/// Bound on a product of two valid 64-bit fields, so that 128-bit
/// intermediates never overflow.
proof fn lemma_product_bounds(x: int, y: int)
    requires
        -i64::MAX <= x <= i64::MAX,
        -i64::MAX <= y <= i64::MAX,
    ensures
        -(i64::MAX * i64::MAX) <= x * y <= i64::MAX * i64::MAX,
{
    assert(-(i64::MAX * i64::MAX) <= x * y <= i64::MAX * i64::MAX) by (nonlinear_arith)
        requires
            -i64::MAX <= x <= i64::MAX,
            -i64::MAX <= y <= i64::MAX,
    ;
}

/// A product of two positive denominators is positive and bounded.
proof fn lemma_den_product(x: int, y: int)
    requires
        0 < x <= i64::MAX,
        0 < y <= i64::MAX,
    ensures
        0 < x * y <= i64::MAX * i64::MAX,
{
    assert(0 < x * y <= i64::MAX * i64::MAX) by (nonlinear_arith)
        requires
            0 < x <= i64::MAX,
            0 < y <= i64::MAX,
    ;
}

/// Reduces the exact ratio `n / d` by the greatest common divisor and packs
/// it into 64-bit fields, refusing values whose reduced form does not fit.
fn rat_norm(n: i128, d: i128) -> (r: Option<Rat>)
    requires
        0 < d,
        -i128::MAX <= n,
    ensures
        r == norm(n as int, d as int),
        r matches Some(q) ==> q.wf() && q.is_ratio(n as int, d as int),
{
    let neg: bool = n < 0;
    let m: u128 = if neg {
        (-n) as u128
    } else {
        n as u128
    };
    let du: u128 = d as u128;
    assert(m as nat == abs_nat(n as int));
    proof {
        lemma_gcd_divides(m as nat, du as nat);
    }
    let g: u128 = gcd_u128(m, du);
    let ghost gi: int = gcd(abs_nat(n as int), d as nat) as int;
    assert(g as int == gi);
    assert(gi > 0);
    let mr: u128 = m / g;
    let dr: u128 = du / g;
    proof {
        lemma_fundamental_div_mod(m as int, gi);
        lemma_fundamental_div_mod(du as int, gi);
        // The reduced denominator is at least one.
        assert(du as int == gi * (dr as int));
        assert(dr as int >= 1) by (nonlinear_arith)
            requires
                du as int == gi * (dr as int),
                du as int >= 1,
                gi > 0,
        ;
        // The reduced numerator matches the specification's Euclidean
        // quotient, also when `n` is negative.
        if neg {
            assert(n as int == gi * (-(mr as int))) by (nonlinear_arith)
                requires
                    m as int == gi * (mr as int),
                    n as int == -(m as int),
            ;
            lemma_div_multiples_vanish(-(mr as int), gi);
            assert(norm_num(n as int, d as int) == -(mr as int));
        } else {
            assert(n as int == gi * (mr as int));
            lemma_div_multiples_vanish(mr as int, gi);
            assert(norm_num(n as int, d as int) == mr as int);
        }
        lemma_div_multiples_vanish(dr as int, gi);
        assert(norm_den(n as int, d as int) == dr as int);
    }
    if mr <= i64::MAX as u128 && dr <= i64::MAX as u128 {
        let num: i64 = if neg {
            -(mr as i64)
        } else {
            mr as i64
        };
        let q = Rat { num, den: dr as i64 };
        proof {
            // The packed value still denotes the exact ratio `n / d`.
            assert(q.num * (d as int) == (n as int) * q.den) by (nonlinear_arith)
                requires
                    n as int == gi * (q.num as int),
                    d as int == gi * (q.den as int),
                    gi > 0,
            ;
        }
        Some(q)
    } else {
        None
    }
}

/// Euclid's algorithm on 128-bit unsigned integers.
fn gcd_u128(a: u128, b: u128) -> (g: u128)
    ensures
        g as nat == gcd(a as nat, b as nat),
{
    let mut x: u128 = a;
    let mut y: u128 = b;
    while y != 0
        invariant
            gcd(x as nat, y as nat) == gcd(a as nat, b as nat),
        decreases y,
    {
        let r: u128 = x % y;
        x = y;
        y = r;
    }
    x
}

} // verus!
