//! SA/D, the sail-area-to-displacement ratio: how much sail a hull carries
//! for its weight.
use crate::boat::Boat;
use crate::bignum::{floor_quotient, floor_value, BigNat};
use crate::number::Fraction;
use crate::ratio::{render_ratio, rendered, ExactRatio, RATIO_SCALE};
use vstd::prelude::*;

verus! {

/// How much sail a boat carries for its weight.
///
/// Motorsailers sit around 13-14, slow auxiliaries 14-15, offshore cruisers
/// 15-16, coastal cruisers 16-17, racing yachts 17-19, and ultralight racers,
/// class racers and daysailers 20 and up.
#[derive(Clone, Copy, Debug, PartialEq, Eq, Structural)]
pub enum SailAreaCharacter {
    Low,
    Moderate,
    High,
}

/// The sail area character of an SA/D value whose cube is `num / den`
/// (`den > 0`): below 15 low, up to 20 moderate, above that high.
pub open spec fn sail_area_character_of(num: int, den: int) -> SailAreaCharacter {
    if num < 3375 * den {
        SailAreaCharacter::Low
    } else if num <= 8000 * den {
        SailAreaCharacter::Moderate
    } else {
        SailAreaCharacter::High
    }
}

/// Every sail area character is given to some SA/D value.
pub proof fn lemma_sail_area_characters_reachable(c: SailAreaCharacter)
    ensures
        exists|num: int| 0 <= num && #[trigger] sail_area_character_of(num, 1) == c,
{
    let num = match c {
        SailAreaCharacter::Low => 0,
        SailAreaCharacter::Moderate => 8000,
        SailAreaCharacter::High => 8001,
    };
    assert(sail_area_character_of(num, 1) == c);
}

impl SailAreaCharacter {
    /// The label shown for this character.
    pub open spec fn spec_label(self) -> Seq<char> {
        match self {
            SailAreaCharacter::Low => "Low"@,
            SailAreaCharacter::Moderate => "Moderate"@,
            SailAreaCharacter::High => "High"@,
        }
    }

    /// The label shown for this character.
    pub fn label(&self) -> (r: &'static str)
        ensures
            r@ == self.spec_label(),
    {
        match self {
            SailAreaCharacter::Low => "Low",
            SailAreaCharacter::Moderate => "Moderate",
            SailAreaCharacter::High => "High",
        }
    }

    /// The sail area character of an SA/D value whose cube is `num / den`.
    pub fn classify(num: &BigNat, den: &BigNat) -> (r: SailAreaCharacter)
        ensures
            r == sail_area_character_of(num@, den@),
    {
        if num.lt(&den.mul_u64(3375)) {
            SailAreaCharacter::Low
        } else if num.le(&den.mul_u64(8000)) {
            SailAreaCharacter::Moderate
        } else {
            SailAreaCharacter::High
        }
    }
}

/// `101605^2`: the long ton (1016.05 kg) squared, counted in hundredths of a
/// kilogram.
pub const LONG_TON_SQUARED: u128 = 10_323_576_025;

/// The numerator of the cube of SA/D as an exact fraction. SA/D is the sail
/// area in square metres over the displacement in long tons to the power
/// 2/3, so its cube is the area cubed over the long tons squared.
pub open spec fn sail_area_cube_num(sail_area: Fraction, displacement: Fraction) -> int {
    sail_area.num * sail_area.num * sail_area.num * displacement.den * displacement.den
        * LONG_TON_SQUARED
}

/// The denominator of the cube of SA/D as an exact fraction.
pub open spec fn sail_area_cube_den(sail_area: Fraction, displacement: Fraction) -> int {
    sail_area.den * sail_area.den * sail_area.den * displacement.num * displacement.num * 10_000
}

/// SA/D in millionths, rounded down (held at `u128::MAX` when larger): the
/// cube root of its exact cube times `RATIO_SCALE^3`.
pub open spec fn sail_area_displacement_millionths(num: int, den: int) -> u128 {
    floor_value(num * (RATIO_SCALE * RATIO_SCALE * RATIO_SCALE), den, true)
}

/// SA/D (sail-area-to-displacement ratio): how much power the sails give
/// for the boat's weight. A typical cruiser today sits between 17.5 and 18.5.
#[derive(Debug, PartialEq)]
pub struct SailAreaDisplacementRatio {
    /// The exact cube of the ratio: SA/D involves a cube root, so the ratio
    /// itself is held exactly as its cube.
    pub cube: ExactRatio,
    /// The ratio in millionths, rounded down, for display.
    pub value: u128,
    /// The character of the exact ratio, read from its cube.
    pub sail_area_character: SailAreaCharacter,
}

impl SailAreaDisplacementRatio {
    /// This is the SA/D ratio of `boat`: the exact cube, the display value
    /// and the character.
    pub open spec fn describes(self, boat: &Boat) -> bool {
        &&& self.cube.num@ == sail_area_cube_num(boat.spec_sail_area()@, boat.spec_displacement()@)
        &&& self.cube.den@ == sail_area_cube_den(boat.spec_sail_area()@, boat.spec_displacement()@)
        &&& self.value == sail_area_displacement_millionths(self.cube.num@, self.cube.den@)
        &&& self.sail_area_character == sail_area_character_of(self.cube.num@, self.cube.den@)
    }

    /// The value to one decimal and the character.
    pub fn render(&self) -> (r: String)
        ensures
            r@ == rendered(self.value, 1, self.sail_area_character.spec_label()),
    {
        render_ratio(self.value, 1, self.sail_area_character.label())
    }

    /// The SA/D ratio of `boat`, whose displacement must not be zero.
    pub fn from_boat(boat: &Boat) -> (r: SailAreaDisplacementRatio)
        requires
            boat.spec_displacement()@.num > 0,
        ensures
            r.describes(boat),
            r.cube.den@ > 0,
    {
        let a = boat.sail_area().to_meter2();
        let w = boat.displacement().to_kilogram();
        let num = BigNat::from_u128(a.num).mul_u128(a.num).mul_u128(a.num).mul_u128(w.den).mul_u128(
            w.den,
        ).mul_u128(LONG_TON_SQUARED);
        let den = BigNat::from_u128(a.den).mul_u128(a.den).mul_u128(a.den).mul_u128(w.num).mul_u128(
            w.num,
        ).mul_u128(10_000);
        proof {
            let x = a.den as int;
            let y = w.num as int;
            assert(x * x * x * y * y * 10_000 > 0) by (nonlinear_arith)
                requires
                    x > 0,
                    y > 0,
            ;
        }
        let scaled = num.mul_u128(RATIO_SCALE * RATIO_SCALE * RATIO_SCALE);
        let value = floor_quotient(&scaled, &den, true);
        let sail_area_character = SailAreaCharacter::classify(&num, &den);
        SailAreaDisplacementRatio { cube: ExactRatio { num, den }, value, sail_area_character }
    }
}

} // verus!
