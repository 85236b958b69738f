//! Exact decimal inputs and exact fractional outputs.
use crate::bignum::BigNat;
use vstd::prelude::*;

verus! {

/// `10` raised to the power `n`.
pub open spec fn pow10(n: nat) -> nat
    decreases n,
{
    if n == 0 {
        1
    } else {
        10 * pow10((n - 1) as nat)
    }
}

/// `a / b` rounded to the nearest integer, a half rounded up (for `a >= 0`, `b > 0`).
pub open spec fn round_div(a: int, b: int) -> int {
    (2 * a + b) / (2 * b)
}

/// Largest number of decimal places a `Decimal` may carry.
pub const MAX_SCALE: u32 = 18;

/// A non-negative decimal number, `mantissa / 10^scale`.
#[derive(Clone, Copy, Debug, PartialEq, Eq, Structural)]
pub struct Decimal {
    pub mantissa: u64,
    pub scale: u32,
}

impl Decimal {
    /// Well-formed: the scale stays within `MAX_SCALE`.
    pub open spec fn wf(self) -> bool {
        self.scale <= MAX_SCALE
    }

    /// The denominator `10^scale`.
    pub open spec fn denom(self) -> nat {
        pow10(self.scale as nat)
    }

    /// The decimal `mantissa / 10^scale`.
    pub fn new(mantissa: u64, scale: u32) -> (r: Decimal)
        requires
            scale <= MAX_SCALE,
        ensures
            r.mantissa == mantissa,
            r.scale == scale,
            r.wf(),
    {
        Decimal { mantissa, scale }
    }

    /// The whole number `n`.
    pub fn from_int(n: u64) -> (r: Decimal)
        ensures
            r.mantissa == n,
            r.scale == 0,
            r.wf(),
    {
        Decimal { mantissa: n, scale: 0 }
    }

    /// `10^scale`, as a machine integer.
    pub fn denominator(&self) -> (r: u64)
        requires
            self.wf(),
        ensures
            r == self.denom(),
    {
        power_of_ten(self.scale)
    }
}

/// `10^n`, as a machine integer.
pub(crate) fn power_of_ten(n: u32) -> (r: u64)
    requires
        n <= MAX_SCALE,
    ensures
        r == pow10(n as nat),
{
    proof {
        lemma_pow10_max_scale();
        lemma_pow10_monotone(0, MAX_SCALE as nat);
    }
    let mut p: u64 = 1;
    let mut i: u32 = 0;
    while i < n
        invariant
            i <= n <= MAX_SCALE,
            p == pow10(i as nat),
            pow10(MAX_SCALE as nat) == 1_000_000_000_000_000_000,
        decreases n - i,
    {
        proof {
            lemma_pow10_monotone((i + 1) as nat, MAX_SCALE as nat);
        }
        p = p * 10;
        i = i + 1;
    }
    p
}

/// `pow10` grows with its exponent.
pub proof fn lemma_pow10_monotone(a: nat, b: nat)
    requires
        a <= b,
    ensures
        1 <= pow10(a) <= pow10(b),
    decreases b,
{
    if b > a {
        lemma_pow10_monotone(a, (b - 1) as nat);
    } else if a > 0 {
        lemma_pow10_monotone((a - 1) as nat, (a - 1) as nat);
    }
}

/// `pow10(MAX_SCALE)` written out.
pub proof fn lemma_pow10_max_scale()
    ensures
        pow10(MAX_SCALE as nat) == 1_000_000_000_000_000_000,
{
    reveal_with_fuel(pow10, 19);
}

/// An exact non-negative fraction `num / den`; `den` is positive.
#[derive(Clone, Copy, Debug, PartialEq, Eq, Structural)]
pub struct Fraction {
    pub num: u128,
    pub den: u128,
}

impl Fraction {
    /// Well-formed: the denominator is positive.
    pub open spec fn wf(self) -> bool {
        self.den > 0
    }

    /// Whether two fractions stand for the same number.
    pub open spec fn same_value(self, other: Fraction) -> bool {
        self.num * other.den == other.num * self.den
    }

    /// Whether two fractions stand for the same number.
    pub fn equals(&self, other: &Fraction) -> (r: bool)
        ensures
            r == self.same_value(*other),
    {
        let left = BigNat::from_u128(self.num).mul_u128(other.den);
        let right = BigNat::from_u128(other.num).mul_u128(self.den);
        left.le(&right) && right.le(&left)
    }

    /// The fraction `num / den`.
    pub fn new(num: u128, den: u128) -> (r: Fraction)
        requires
            den > 0,
        ensures
            r.num == num,
            r.den == den,
            r.wf(),
    {
        Fraction { num, den }
    }
}

/// The greatest common divisor of `a` and `b`, by Euclid's algorithm.
pub open spec fn gcd(a: nat, b: nat) -> nat
    decreases b,
{
    if b == 0 {
        a
    } else {
        gcd(b, a % b)
    }
}

/// The greatest common divisor of two numbers, not both zero, is positive and
/// divides both.
pub proof fn lemma_gcd_divides(a: nat, b: nat)
    requires
        a > 0 || b > 0,
    ensures
        gcd(a, b) > 0,
        a % gcd(a, b) == 0,
        b % gcd(a, b) == 0,
    decreases b,
{
    if b == 0 {
        vstd::arithmetic::div_mod::lemma_mod_self_0(a as int);
        vstd::arithmetic::div_mod::lemma_small_mod(0, a);
    } else {
        let r = a % b;
        lemma_gcd_divides(b, r);
        let g = gcd(b, r) as int;
        vstd::arithmetic::div_mod::lemma_fundamental_div_mod(a as int, b as int);
        vstd::arithmetic::div_mod::lemma_fundamental_div_mod(b as int, g);
        vstd::arithmetic::div_mod::lemma_fundamental_div_mod(r as int, g);
        let k = (b as int / g) * (a as int / b as int) + r as int / g;
        assert(a == k * g) by (nonlinear_arith)
            requires
                a == b * (a as int / b as int) + r,
                b == g * (b as int / g) + 0,
                r == g * (r as int / g) + 0,
                k == (b as int / g) * (a as int / b as int) + r as int / g,
        ;
        vstd::arithmetic::div_mod::lemma_mod_multiples_basic(k, g);
    }
}

/// The greatest common divisor, as a machine integer.
pub(crate) fn gcd_u128(a: u128, b: u128) -> (r: u128)
    ensures
        r == gcd(a as nat, b as nat),
    decreases b,
{
    if b == 0 {
        a
    } else {
        gcd_u128(b, a % b)
    }
}

/// `num / den` in lowest terms.
pub open spec fn reduced(num: nat, den: nat) -> Fraction {
    let g = gcd(num, den);
    Fraction { num: (num / g) as u128, den: (den / g) as u128 }
}

/// `num / den` in lowest terms: the same number, with a positive denominator.
pub(crate) fn reduce(num: u128, den: u128) -> (r: Fraction)
    requires
        den > 0,
    ensures
        r == reduced(num as nat, den as nat),
        r.den > 0,
        r.num * den == num * r.den,
{
    let g = gcd_u128(num, den);
    proof {
        lemma_gcd_divides(num as nat, den as nat);
        vstd::arithmetic::div_mod::lemma_fundamental_div_mod(num as int, g as int);
        vstd::arithmetic::div_mod::lemma_fundamental_div_mod(den as int, g as int);
        let a = num as int / g as int;
        let b = den as int / g as int;
        assert(a * den == num * b) by (nonlinear_arith)
            requires
                num == g * a + 0,
                den == g * b + 0,
        ;
        assert(b > 0) by (nonlinear_arith)
            requires
                den == g * b + 0,
                den > 0,
                g > 0,
        ;
    }
    Fraction { num: num / g, den: den / g }
}

/// Numerator and denominator of `a + b` over the least common denominator.
pub open spec fn sum_parts(a: Fraction, b: Fraction) -> (int, int) {
    let g = gcd(a.den as nat, b.den as nat) as int;
    let (an, ad, bn, bd) = (a.num as int, a.den as int, b.num as int, b.den as int);
    (an * (bd / g) + bn * (ad / g), (ad / g) * bd)
}

/// Whether `a + b` can be formed in machine integers.
pub open spec fn sum_fits(a: Fraction, b: Fraction) -> bool {
    &&& sum_parts(a, b).0 <= u128::MAX
    &&& sum_parts(a, b).1 <= u128::MAX
}

/// `a + b` in lowest terms.
pub open spec fn fraction_sum(a: Fraction, b: Fraction) -> Fraction {
    reduced(sum_parts(a, b).0 as nat, sum_parts(a, b).1 as nat)
}

/// `a + b`, exactly and in lowest terms.
pub(crate) fn add_fractions(a: Fraction, b: Fraction) -> (r: Fraction)
    requires
        a.den > 0,
        b.den > 0,
        sum_fits(a, b),
    ensures
        r == fraction_sum(a, b),
        r.den > 0,
        r.num * (a.den * b.den) == (a.num * b.den + b.num * a.den) * r.den,
{
    let g = gcd_u128(a.den, b.den);
    proof {
        lemma_gcd_divides(a.den as nat, b.den as nat);
        vstd::arithmetic::div_mod::lemma_fundamental_div_mod(a.den as int, g as int);
        vstd::arithmetic::div_mod::lemma_fundamental_div_mod(b.den as int, g as int);
    }
    let ad = a.den / g;
    let bd = b.den / g;
    proof {
        assert(ad > 0 && bd > 0) by (nonlinear_arith)
            requires
                a.den == g * ad + 0,
                b.den == g * bd + 0,
                a.den > 0,
                b.den > 0,
                g > 0,
        ;
        assert(ad * b.den > 0) by (nonlinear_arith)
            requires
                ad > 0,
                b.den > 0,
        ;
    }
    let num = a.num * bd + b.num * ad;
    let den = ad * b.den;
    let r = reduce(num, den);
    proof {
        assert(r.num * (a.den * b.den) == (a.num * b.den + b.num * a.den) * r.den)
            by (nonlinear_arith)
            requires
                r.num * den == num * r.den,
                a.den == g * ad,
                b.den == g * bd,
                num == a.num * bd + b.num * ad,
                den == ad * b.den,
        ;
    }
    r
}

/// The cross-reduced parts of `a / b`.
pub open spec fn quotient_parts(a: Fraction, b: Fraction) -> (int, int) {
    let g1 = gcd(a.num as nat, b.num as nat) as int;
    let g2 = gcd(a.den as nat, b.den as nat) as int;
    let (an, ad, bn, bd) = (a.num as int, a.den as int, b.num as int, b.den as int);
    ((an / g1) * (bd / g2), (ad / g2) * (bn / g1))
}

/// Whether `a / b` can be formed in machine integers.
pub open spec fn quotient_fits(a: Fraction, b: Fraction) -> bool {
    &&& quotient_parts(a, b).0 <= u128::MAX
    &&& quotient_parts(a, b).1 <= u128::MAX
}

/// `a / b`, with the common factors of the numerators and of the
/// denominators taken out.
pub open spec fn fraction_quotient(a: Fraction, b: Fraction) -> Fraction {
    Fraction { num: quotient_parts(a, b).0 as u128, den: quotient_parts(a, b).1 as u128 }
}

/// `a / b`, exactly.
pub(crate) fn divide_fractions(a: Fraction, b: Fraction) -> (r: Fraction)
    requires
        a.den > 0,
        b.den > 0,
        b.num > 0,
        quotient_fits(a, b),
    ensures
        r == fraction_quotient(a, b),
        r.den > 0,
        r.num * (a.den * b.num) == (a.num * b.den) * r.den,
{
    let g1 = gcd_u128(a.num, b.num);
    let g2 = gcd_u128(a.den, b.den);
    proof {
        lemma_gcd_divides(a.num as nat, b.num as nat);
        lemma_gcd_divides(a.den as nat, b.den as nat);
        vstd::arithmetic::div_mod::lemma_fundamental_div_mod(a.num as int, g1 as int);
        vstd::arithmetic::div_mod::lemma_fundamental_div_mod(b.num as int, g1 as int);
        vstd::arithmetic::div_mod::lemma_fundamental_div_mod(a.den as int, g2 as int);
        vstd::arithmetic::div_mod::lemma_fundamental_div_mod(b.den as int, g2 as int);
    }
    let p = a.num / g1;
    let q = b.num / g1;
    let s = a.den / g2;
    let t = b.den / g2;
    proof {
        assert(q > 0 && s > 0) by (nonlinear_arith)
            requires
                b.num == g1 * q + 0,
                a.den == g2 * s + 0,
                b.num > 0,
                a.den > 0,
                g1 > 0,
                g2 > 0,
        ;
        assert(s * q > 0) by (nonlinear_arith)
            requires
                q > 0,
                s > 0,
        ;
        assert((p * t) * (a.den * b.num) == (a.num * b.den) * (s * q)) by (nonlinear_arith)
            requires
                a.num == g1 * p + 0,
                b.num == g1 * q + 0,
                a.den == g2 * s + 0,
                b.den == g2 * t + 0,
        ;
    }
    Fraction { num: p * t, den: s * q }
}

} // verus!
