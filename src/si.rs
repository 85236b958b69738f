//! Physical quantities: one nominal type per dimension, so that a length can
//! never be added to, or divided by, a weight.
//!
//! Each quantity holds its exact value as a fraction of its canonical unit
//! (metre, kilogram, square metre). Making one from a decimal in any unit, and
//! reading it in any unit, loses nothing.
use crate::number::{
    add_fractions, divide_fractions, fraction_quotient, fraction_sum, lemma_pow10_max_scale,
    lemma_pow10_monotone, quotient_fits, sum_fits, Decimal, Fraction, MAX_SCALE,
};
use vstd::prelude::*;

verus! {

/// Reading `d`, given in a unit worth `un / ud` canonical units, back in that
/// unit: the reading fits in machine integers and equals `d` exactly.
pub open spec fn round_trip_exact(d: Decimal, un: int, ud: int) -> bool {
    let num = d.mantissa * un;
    let den = d.denom() * ud;
    &&& num * ud <= u128::MAX
    &&& den * un <= u128::MAX
    &&& (num * ud) * d.denom() == d.mantissa * (den * un)
}

/// A decimal read back in a unit whose factors are at most `10^8` (those of
/// this module) comes back exactly.
proof fn lemma_round_trip_exact(d: Decimal, un: int, ud: int)
    requires
        d.wf(),
        1 <= un <= 100_000_000,
        1 <= ud <= 100_000_000,
    ensures
        round_trip_exact(d, un, ud),
{
    lemma_pow10_max_scale();
    lemma_pow10_monotone(d.scale as nat, MAX_SCALE as nat);
    let m = d.mantissa as int;
    let p = d.denom() as int;
    assert(m * un * ud <= 0xffff_ffff_ffff_ffff * 100_000_000 * 100_000_000) by (nonlinear_arith)
        requires
            0 <= m <= 0xffff_ffff_ffff_ffff,
            1 <= un <= 100_000_000,
            1 <= ud <= 100_000_000,
    ;
    assert(p * ud * un <= 1_000_000_000_000_000_000 * 100_000_000 * 100_000_000) by (nonlinear_arith)
        requires
            1 <= p <= 1_000_000_000_000_000_000,
            1 <= un <= 100_000_000,
            1 <= ud <= 100_000_000,
    ;
    assert((m * un * ud) * p == m * (p * ud * un)) by (nonlinear_arith);
}

/// A decimal amount given in a unit worth `un / ud` canonical units, exactly.
fn in_canonical(val: Decimal, un: u128, ud: u128) -> (r: Fraction)
    requires
        val.wf(),
        un <= 100_000_000,
        1 <= ud <= 100_000_000,
    ensures
        r.num == val.mantissa * un,
        r.den == val.denom() * ud,
        r.den > 0,
{
    let p = val.denominator() as u128;
    proof {
        lemma_pow10_max_scale();
        lemma_pow10_monotone(0, val.scale as nat);
        lemma_pow10_monotone(val.scale as nat, MAX_SCALE as nat);
        assert(val.mantissa * un <= 0xffff_ffff_ffff_ffff * 100_000_000) by (nonlinear_arith)
            requires
                val.mantissa <= 0xffff_ffff_ffff_ffff,
                un <= 100_000_000,
        ;
        assert(1 <= p * ud <= 1_000_000_000_000_000_000 * 100_000_000) by (nonlinear_arith)
            requires
                1 <= p <= 1_000_000_000_000_000_000,
                1 <= ud <= 100_000_000,
        ;
    }
    Fraction { num: val.mantissa as u128 * un, den: p * ud }
}

/// A length, held exactly as a fraction of a metre.
#[derive(Clone, Copy, Debug, PartialEq, Eq, Structural)]
pub struct Length {
    value: Fraction,
}

impl View for Length {
    type V = Fraction;

    /// The length in metres.
    closed spec fn view(&self) -> Fraction {
        self.value
    }
}

impl Length {
    #[verifier::type_invariant]
    spec fn positive_denominator(self) -> bool {
        self.value.den > 0
    }

    /// A length of `val` metres.
    pub fn from_meter(val: Decimal) -> (r: Length)
        requires
            val.wf(),
        ensures
            r@.num == val.mantissa,
            r@.den == val.denom(),
    {
        Length { value: in_canonical(val, 1, 1) }
    }

    /// The length in metres, exactly.
    pub fn to_meter(&self) -> (r: Fraction)
        ensures
            r == self@,
            r.den > 0,
    {
        proof {
            use_type_invariant(self);
        }
        self.value
    }

    /// A length of `val` millimetres (1 mm = 0.001 m).
    pub fn from_millimeter(val: Decimal) -> (r: Length)
        requires
            val.wf(),
        ensures
            r@.num == val.mantissa,
            r@.den == val.denom() * 1000,
    {
        Length { value: in_canonical(val, 1, 1000) }
    }

    /// The length in millimetres, exactly.
    pub fn to_millimiter(&self) -> (r: Fraction)
        requires
            self@.num * 1000 <= u128::MAX,
        ensures
            r.num == self@.num * 1000,
            r.den == self@.den,
            r.den > 0,
    {
        proof {
            use_type_invariant(self);
        }
        Fraction { num: self.value.num * 1000, den: self.value.den }
    }

    /// A length of `val` inches (1 in = 25.4 mm).
    pub fn from_inch(val: Decimal) -> (r: Length)
        requires
            val.wf(),
        ensures
            r@.num == val.mantissa * 254,
            r@.den == val.denom() * 10000,
    {
        Length { value: in_canonical(val, 254, 10000) }
    }

    /// The length in inches, exactly.
    pub fn to_inch(&self) -> (r: Fraction)
        requires
            self@.num * 10000 <= u128::MAX,
            self@.den * 254 <= u128::MAX,
        ensures
            r.num == self@.num * 10000,
            r.den == self@.den * 254,
            r.den > 0,
    {
        proof {
            use_type_invariant(self);
            assert(self.value.den * 254 > 0) by (nonlinear_arith)
                requires
                    self.value.den > 0,
            ;
        }
        Fraction { num: self.value.num * 10000, den: self.value.den * 254 }
    }

    /// A length of `val` feet (1 ft = 304.8 mm).
    pub fn from_foot(val: Decimal) -> (r: Length)
        requires
            val.wf(),
        ensures
            r@.num == val.mantissa * 3048,
            r@.den == val.denom() * 10000,
    {
        Length { value: in_canonical(val, 3048, 10000) }
    }

    /// The length in feet, exactly.
    pub fn to_foot(&self) -> (r: Fraction)
        requires
            self@.num * 10000 <= u128::MAX,
            self@.den * 3048 <= u128::MAX,
        ensures
            r.num == self@.num * 10000,
            r.den == self@.den * 3048,
            r.den > 0,
    {
        proof {
            use_type_invariant(self);
            assert(self.value.den * 3048 > 0) by (nonlinear_arith)
                requires
                    self.value.den > 0,
            ;
        }
        Fraction { num: self.value.num * 10000, den: self.value.den * 3048 }
    }
}

impl core::ops::Add for Length {
    type Output = Length;

    /// The exact sum of two lengths, in lowest terms.
    fn add(self, other: Length) -> (r: Length)
        ensures
            r@ == fraction_sum(self@, other@),
            r@.num * (self@.den * other@.den) == (self@.num * other@.den + other@.num * self@.den)
                * r@.den,
    {
        proof {
            use_type_invariant(&self);
            use_type_invariant(&other);
        }
        Length { value: add_fractions(self.value, other.value) }
    }
}

impl vstd::std_specs::ops::AddSpecImpl for Length {
    open spec fn obeys_add_spec() -> bool {
        true
    }

    open spec fn add_req(self, other: Length) -> bool {
        sum_fits(self@, other@)
    }

    closed spec fn add_spec(self, other: Length) -> Length {
        Length { value: fraction_sum(self@, other@) }
    }
}

impl core::ops::Div for Length {
    type Output = Fraction;

    /// The exact, dimensionless ratio of two lengths.
    fn div(self, other: Length) -> (r: Fraction)
        ensures
            r == fraction_quotient(self@, other@),
            r.num * (self@.den * other@.num) == (self@.num * other@.den) * r.den,
            r.wf(),
    {
        proof {
            use_type_invariant(&self);
            use_type_invariant(&other);
        }
        divide_fractions(self.value, other.value)
    }
}

impl vstd::std_specs::ops::DivSpecImpl for Length {
    open spec fn obeys_div_spec() -> bool {
        true
    }

    open spec fn div_req(self, other: Length) -> bool {
        &&& other@.num > 0
        &&& quotient_fits(self@, other@)
    }

    closed spec fn div_spec(self, other: Length) -> Fraction {
        fraction_quotient(self@, other@)
    }
}

/// A decimal amount of any length unit, made into a `Length` and read back in
/// that unit, comes back exactly.
pub proof fn lemma_length_round_trip(val: Decimal)
    requires
        val.wf(),
    ensures
        round_trip_exact(val, 1, 1),
        round_trip_exact(val, 1, 1000),
        round_trip_exact(val, 254, 10000),
        round_trip_exact(val, 3048, 10000),
{
    lemma_round_trip_exact(val, 1, 1);
    lemma_round_trip_exact(val, 1, 1000);
    lemma_round_trip_exact(val, 254, 10000);
    lemma_round_trip_exact(val, 3048, 10000);
}

/// A weight, held exactly as a fraction of a kilogram.
#[derive(Clone, Copy, Debug, PartialEq, Eq, Structural)]
pub struct Weight {
    value: Fraction,
}

impl View for Weight {
    type V = Fraction;

    /// The weight in kilograms.
    closed spec fn view(&self) -> Fraction {
        self.value
    }
}

impl Weight {
    #[verifier::type_invariant]
    spec fn positive_denominator(self) -> bool {
        self.value.den > 0
    }

    /// A weight of `val` kilograms.
    pub fn from_kilogram(val: Decimal) -> (r: Weight)
        requires
            val.wf(),
        ensures
            r@.num == val.mantissa,
            r@.den == val.denom(),
    {
        Weight { value: in_canonical(val, 1, 1) }
    }

    /// The weight in kilograms, exactly.
    pub fn to_kilogram(&self) -> (r: Fraction)
        ensures
            r == self@,
            r.den > 0,
    {
        proof {
            use_type_invariant(self);
        }
        self.value
    }

    /// A weight of `val` grams (1 g = 0.001 kg).
    pub fn from_gram(val: Decimal) -> (r: Weight)
        requires
            val.wf(),
        ensures
            r@.num == val.mantissa,
            r@.den == val.denom() * 1000,
    {
        Weight { value: in_canonical(val, 1, 1000) }
    }

    /// The weight in grams, exactly.
    pub fn to_gram(&self) -> (r: Fraction)
        requires
            self@.num * 1000 <= u128::MAX,
        ensures
            r.num == self@.num * 1000,
            r.den == self@.den,
            r.den > 0,
    {
        proof {
            use_type_invariant(self);
        }
        Fraction { num: self.value.num * 1000, den: self.value.den }
    }

    /// A weight of `val` pounds (1 lb = 1 / 2.20462 kg).
    pub fn from_pound(val: Decimal) -> (r: Weight)
        requires
            val.wf(),
        ensures
            r@.num == val.mantissa * 100000,
            r@.den == val.denom() * 220462,
    {
        Weight { value: in_canonical(val, 100000, 220462) }
    }

    /// The weight in pounds, exactly.
    pub fn to_pound(&self) -> (r: Fraction)
        requires
            self@.num * 220462 <= u128::MAX,
            self@.den * 100000 <= u128::MAX,
        ensures
            r.num == self@.num * 220462,
            r.den == self@.den * 100000,
            r.den > 0,
    {
        proof {
            use_type_invariant(self);
            assert(self.value.den * 100000 > 0) by (nonlinear_arith)
                requires
                    self.value.den > 0,
            ;
        }
        Fraction { num: self.value.num * 220462, den: self.value.den * 100000 }
    }

    /// A weight of `val` long tons (1 long ton = 1016.05 kg).
    pub fn from_long_ton(val: Decimal) -> (r: Weight)
        requires
            val.wf(),
        ensures
            r@.num == val.mantissa * 101605,
            r@.den == val.denom() * 100,
    {
        Weight { value: in_canonical(val, 101605, 100) }
    }

    /// The weight in long tons, exactly.
    pub fn to_long_ton(&self) -> (r: Fraction)
        requires
            self@.num * 100 <= u128::MAX,
            self@.den * 101605 <= u128::MAX,
        ensures
            r.num == self@.num * 100,
            r.den == self@.den * 101605,
            r.den > 0,
    {
        proof {
            use_type_invariant(self);
            assert(self.value.den * 101605 > 0) by (nonlinear_arith)
                requires
                    self.value.den > 0,
            ;
        }
        Fraction { num: self.value.num * 100, den: self.value.den * 101605 }
    }

    /// A weight of `val` short tons (1 short ton = 907.185 kg).
    pub fn from_short_ton(val: Decimal) -> (r: Weight)
        requires
            val.wf(),
        ensures
            r@.num == val.mantissa * 907185,
            r@.den == val.denom() * 1000,
    {
        Weight { value: in_canonical(val, 907185, 1000) }
    }

    /// The weight in short tons, exactly.
    pub fn to_short_ton(&self) -> (r: Fraction)
        requires
            self@.num * 1000 <= u128::MAX,
            self@.den * 907185 <= u128::MAX,
        ensures
            r.num == self@.num * 1000,
            r.den == self@.den * 907185,
            r.den > 0,
    {
        proof {
            use_type_invariant(self);
            assert(self.value.den * 907185 > 0) by (nonlinear_arith)
                requires
                    self.value.den > 0,
            ;
        }
        Fraction { num: self.value.num * 1000, den: self.value.den * 907185 }
    }
}

impl core::ops::Add for Weight {
    type Output = Weight;

    /// The exact sum of two weights, in lowest terms.
    fn add(self, other: Weight) -> (r: Weight)
        ensures
            r@ == fraction_sum(self@, other@),
            r@.num * (self@.den * other@.den) == (self@.num * other@.den + other@.num * self@.den)
                * r@.den,
    {
        proof {
            use_type_invariant(&self);
            use_type_invariant(&other);
        }
        Weight { value: add_fractions(self.value, other.value) }
    }
}

impl vstd::std_specs::ops::AddSpecImpl for Weight {
    open spec fn obeys_add_spec() -> bool {
        true
    }

    open spec fn add_req(self, other: Weight) -> bool {
        sum_fits(self@, other@)
    }

    closed spec fn add_spec(self, other: Weight) -> Weight {
        Weight { value: fraction_sum(self@, other@) }
    }
}

impl core::ops::Div for Weight {
    type Output = Fraction;

    /// The exact, dimensionless ratio of two weights.
    fn div(self, other: Weight) -> (r: Fraction)
        ensures
            r == fraction_quotient(self@, other@),
            r.num * (self@.den * other@.num) == (self@.num * other@.den) * r.den,
            r.wf(),
    {
        proof {
            use_type_invariant(&self);
            use_type_invariant(&other);
        }
        divide_fractions(self.value, other.value)
    }
}

impl vstd::std_specs::ops::DivSpecImpl for Weight {
    open spec fn obeys_div_spec() -> bool {
        true
    }

    open spec fn div_req(self, other: Weight) -> bool {
        &&& other@.num > 0
        &&& quotient_fits(self@, other@)
    }

    closed spec fn div_spec(self, other: Weight) -> Fraction {
        fraction_quotient(self@, other@)
    }
}

/// A decimal amount of any weight unit, made into a `Weight` and read back in
/// that unit, comes back exactly.
pub proof fn lemma_weight_round_trip(val: Decimal)
    requires
        val.wf(),
    ensures
        round_trip_exact(val, 1, 1),
        round_trip_exact(val, 1, 1000),
        round_trip_exact(val, 100000, 220462),
        round_trip_exact(val, 101605, 100),
        round_trip_exact(val, 907185, 1000),
{
    lemma_round_trip_exact(val, 1, 1);
    lemma_round_trip_exact(val, 1, 1000);
    lemma_round_trip_exact(val, 100000, 220462);
    lemma_round_trip_exact(val, 101605, 100);
    lemma_round_trip_exact(val, 907185, 1000);
}

/// An area, held exactly as a fraction of a square metre.
#[derive(Clone, Copy, Debug, PartialEq, Eq, Structural)]
pub struct Area {
    value: Fraction,
}

impl View for Area {
    type V = Fraction;

    /// The area in square metres.
    closed spec fn view(&self) -> Fraction {
        self.value
    }
}

impl Area {
    #[verifier::type_invariant]
    spec fn positive_denominator(self) -> bool {
        self.value.den > 0
    }

    /// An area of `val` square metres.
    pub fn from_meter2(val: Decimal) -> (r: Area)
        requires
            val.wf(),
        ensures
            r@.num == val.mantissa,
            r@.den == val.denom(),
    {
        Area { value: in_canonical(val, 1, 1) }
    }

    /// The area in square metres, exactly.
    pub fn to_meter2(&self) -> (r: Fraction)
        ensures
            r == self@,
            r.den > 0,
    {
        proof {
            use_type_invariant(self);
        }
        self.value
    }

    /// An area of `val` square feet (1 sq ft = 0.3048 m squared).
    pub fn from_foot2(val: Decimal) -> (r: Area)
        requires
            val.wf(),
        ensures
            r@.num == val.mantissa * 9290304,
            r@.den == val.denom() * 100000000,
    {
        Area { value: in_canonical(val, 9290304, 100000000) }
    }

    /// The area in square feet, exactly.
    pub fn to_foot2(&self) -> (r: Fraction)
        requires
            self@.num * 100000000 <= u128::MAX,
            self@.den * 9290304 <= u128::MAX,
        ensures
            r.num == self@.num * 100000000,
            r.den == self@.den * 9290304,
            r.den > 0,
    {
        proof {
            use_type_invariant(self);
            assert(self.value.den * 9290304 > 0) by (nonlinear_arith)
                requires
                    self.value.den > 0,
            ;
        }
        Fraction { num: self.value.num * 100000000, den: self.value.den * 9290304 }
    }
}

impl core::ops::Add for Area {
    type Output = Area;

    /// The exact sum of two areas, in lowest terms.
    fn add(self, other: Area) -> (r: Area)
        ensures
            r@ == fraction_sum(self@, other@),
            r@.num * (self@.den * other@.den) == (self@.num * other@.den + other@.num * self@.den)
                * r@.den,
    {
        proof {
            use_type_invariant(&self);
            use_type_invariant(&other);
        }
        Area { value: add_fractions(self.value, other.value) }
    }
}

impl vstd::std_specs::ops::AddSpecImpl for Area {
    open spec fn obeys_add_spec() -> bool {
        true
    }

    open spec fn add_req(self, other: Area) -> bool {
        sum_fits(self@, other@)
    }

    closed spec fn add_spec(self, other: Area) -> Area {
        Area { value: fraction_sum(self@, other@) }
    }
}

impl core::ops::Div for Area {
    type Output = Fraction;

    /// The exact, dimensionless ratio of two areas.
    fn div(self, other: Area) -> (r: Fraction)
        ensures
            r == fraction_quotient(self@, other@),
            r.num * (self@.den * other@.num) == (self@.num * other@.den) * r.den,
            r.wf(),
    {
        proof {
            use_type_invariant(&self);
            use_type_invariant(&other);
        }
        divide_fractions(self.value, other.value)
    }
}

impl vstd::std_specs::ops::DivSpecImpl for Area {
    open spec fn obeys_div_spec() -> bool {
        true
    }

    open spec fn div_req(self, other: Area) -> bool {
        &&& other@.num > 0
        &&& quotient_fits(self@, other@)
    }

    closed spec fn div_spec(self, other: Area) -> Fraction {
        fraction_quotient(self@, other@)
    }
}

/// A decimal amount of any area unit, made into an `Area` and read back in
/// that unit, comes back exactly.
pub proof fn lemma_area_round_trip(val: Decimal)
    requires
        val.wf(),
    ensures
        round_trip_exact(val, 1, 1),
        round_trip_exact(val, 9290304, 100000000),
{
    lemma_round_trip_exact(val, 1, 1);
    lemma_round_trip_exact(val, 9290304, 100000000);
}

} // verus!
