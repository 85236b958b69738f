//! Plain unit conversions between metric and imperial lengths.
use crate::number::{lemma_pow10_max_scale, lemma_pow10_monotone, Decimal, Fraction, MAX_SCALE};
use vstd::prelude::*;

verus! {

/// Millimetres to inches: `val / 25.4`, exactly.
pub fn mm_to_inch(val: Decimal) -> (r: Fraction)
    requires
        val.wf(),
    ensures
        r.num == val.mantissa * 10,
        r.den == val.denom() * 254,
        r.wf(),
{
    let p = val.denominator();
    proof {
        lemma_pow10_monotone(0, val.scale as nat);
    }
    Fraction { num: val.mantissa as u128 * 10, den: p as u128 * 254 }
}

/// Feet and inches to millimetres: `foot * 304.8 + inch * 25.4`, exactly.
pub fn foot_inch_to_mm(foot: Decimal, inch: Decimal) -> (r: Fraction)
    requires
        foot.wf(),
        inch.wf(),
        foot.mantissa * 3048 * inch.denom() + inch.mantissa * 254 * foot.denom() <= u128::MAX,
    ensures
        r.num == foot.mantissa * 3048 * inch.denom() + inch.mantissa * 254 * foot.denom(),
        r.den == 10 * foot.denom() * inch.denom(),
        r.wf(),
{
    let foot_den = foot.denominator() as u128;
    let inch_den = inch.denominator() as u128;
    proof {
        lemma_pow10_max_scale();
        lemma_pow10_monotone(0, foot.scale as nat);
        lemma_pow10_monotone(0, inch.scale as nat);
        lemma_pow10_monotone(foot.scale as nat, MAX_SCALE as nat);
        lemma_pow10_monotone(inch.scale as nat, MAX_SCALE as nat);
        let f = foot.mantissa as int;
        let i = inch.mantissa as int;
        let fd = foot_den as int;
        let id = inch_den as int;
        assert(0 <= f * 3048 * id && 0 <= i * 254 * fd) by (nonlinear_arith)
            requires
                0 <= f,
                0 <= i,
                0 <= fd,
                0 <= id,
        ;
        assert(0 <= f * 3048 <= f * 3048 * id) by (nonlinear_arith)
            requires
                0 <= f,
                1 <= id,
        ;
        assert(0 <= i * 254 <= i * 254 * fd) by (nonlinear_arith)
            requires
                0 <= i,
                1 <= fd,
        ;
        assert(1 <= 10 * fd * id <= 10 * 1_000_000_000_000_000_000 * 1_000_000_000_000_000_000)
            by (nonlinear_arith)
            requires
                1 <= fd <= 1_000_000_000_000_000_000,
                1 <= id <= 1_000_000_000_000_000_000,
        ;
    }
    let num = foot.mantissa as u128 * 3048 * inch_den + inch.mantissa as u128 * 254 * foot_den;
    Fraction { num, den: 10 * foot_den * inch_den }
}

} // verus!
