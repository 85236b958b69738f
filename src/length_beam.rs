//! L/B, the length-to-beam ratio: whether a hull is beamy or narrow.
use crate::boat::Boat;
use crate::bignum::BigNat;
use crate::number::Fraction;
use crate::ratio::{millionths, render_ratio, rendered, to_millionths, ExactRatio};
use vstd::prelude::*;

verus! {

/// Whether a hull is beamy or narrow.
#[derive(Clone, Copy, Debug, PartialEq, Eq, Structural)]
pub enum BeamCharacter {
    Narrow,
    ModerateNarrow,
    Moderate,
    ModerateBeamy,
    Beamy,
}

/// The beam character of the L/B value `num / den`, decided exactly. Narrow
/// from 4.00 up, moderate narrow above 3.65, moderate from 3.30 up to and
/// including 3.65, moderate beamy above 3.00, beamy at 3.00 and below.
pub open spec fn beam_character_of(num: int, den: int) -> BeamCharacter {
    if 100 * num >= 400 * den {
        BeamCharacter::Narrow
    } else if 100 * num > 365 * den {
        BeamCharacter::ModerateNarrow
    } else if 100 * num >= 330 * den {
        BeamCharacter::Moderate
    } else if 100 * num > 300 * den {
        BeamCharacter::ModerateBeamy
    } else {
        BeamCharacter::Beamy
    }
}

/// Every beam character is given to some L/B value.
pub proof fn lemma_beam_characters_reachable(c: BeamCharacter)
    ensures
        exists|num: int| 0 <= num && #[trigger] beam_character_of(num, 100) == c,
{
    let num = match c {
        BeamCharacter::Narrow => 400,
        BeamCharacter::ModerateNarrow => 366,
        BeamCharacter::Moderate => 365,
        BeamCharacter::ModerateBeamy => 301,
        BeamCharacter::Beamy => 300,
    };
    assert(beam_character_of(num, 100) == c);
}

impl BeamCharacter {
    /// The label shown for this character.
    pub open spec fn spec_label(self) -> Seq<char> {
        match self {
            BeamCharacter::Narrow => "Narrow"@,
            BeamCharacter::ModerateNarrow => "Moderate narrow"@,
            BeamCharacter::Moderate => "Moderate"@,
            BeamCharacter::ModerateBeamy => "Moderate beamy"@,
            BeamCharacter::Beamy => "Beamy"@,
        }
    }

    /// The label shown for this character.
    pub fn label(&self) -> (r: &'static str)
        ensures
            r@ == self.spec_label(),
    {
        match self {
            BeamCharacter::Narrow => "Narrow",
            BeamCharacter::ModerateNarrow => "Moderate narrow",
            BeamCharacter::Moderate => "Moderate",
            BeamCharacter::ModerateBeamy => "Moderate beamy",
            BeamCharacter::Beamy => "Beamy",
        }
    }

    /// The beam character of the L/B value `num / den`.
    pub fn classify(num: &BigNat, den: &BigNat) -> (r: BeamCharacter)
        ensures
            r == beam_character_of(num@, den@),
    {
        let n = num.mul_u64(100);
        if den.mul_u64(400).le(&n) {
            BeamCharacter::Narrow
        } else if den.mul_u64(365).lt(&n) {
            BeamCharacter::ModerateNarrow
        } else if den.mul_u64(330).le(&n) {
            BeamCharacter::Moderate
        } else if den.mul_u64(300).lt(&n) {
            BeamCharacter::ModerateBeamy
        } else {
            BeamCharacter::Beamy
        }
    }
}

/// The numerator of L/B as an exact fraction: LOA over maximum beam.
pub open spec fn length_beam_num(loa: Fraction, b_max: Fraction) -> int {
    loa.num * b_max.den
}

/// The denominator of L/B as an exact fraction.
pub open spec fn length_beam_den(loa: Fraction, b_max: Fraction) -> int {
    loa.den * b_max.num
}

/// L/B (length-to-beam ratio): tells whether a boat is beamy or narrow.
#[derive(Debug, PartialEq)]
pub struct LengthBeamRatio {
    /// The exact ratio, LOA over maximum beam.
    pub exact: ExactRatio,
    /// The exact ratio in millionths, rounded down, for display.
    pub value: u128,
    /// The character of the exact ratio.
    pub beam_character: BeamCharacter,
}

impl LengthBeamRatio {
    /// This is the L/B ratio of `boat`: the exact ratio, its display value and
    /// its character.
    pub open spec fn describes(self, boat: &Boat) -> bool {
        &&& self.exact.num@ == length_beam_num(boat.spec_loa()@, boat.spec_b_max()@)
        &&& self.exact.den@ == length_beam_den(boat.spec_loa()@, boat.spec_b_max()@)
        &&& self.value == millionths(self.exact.num@, self.exact.den@)
        &&& self.beam_character == beam_character_of(self.exact.num@, self.exact.den@)
    }

    /// The value to two decimals and the character.
    pub fn render(&self) -> (r: String)
        ensures
            r@ == rendered(self.value, 2, self.beam_character.spec_label()),
    {
        render_ratio(self.value, 2, self.beam_character.label())
    }

    /// The L/B ratio of `boat`, whose beam must not be zero.
    pub fn from_boat(boat: &Boat) -> (r: LengthBeamRatio)
        requires
            boat.spec_b_max()@.num > 0,
        ensures
            r.describes(boat),
            r.exact.den@ > 0,
    {
        let loa = boat.loa().to_meter();
        let beam = boat.b_max().to_meter();
        let num = BigNat::from_u128(loa.num).mul_u128(beam.den);
        let den = BigNat::from_u128(loa.den).mul_u128(beam.num);
        proof {
            assert(loa.den * beam.num > 0) by (nonlinear_arith)
                requires
                    loa.den > 0,
                    beam.num > 0,
            ;
        }
        let value = to_millionths(&num, &den);
        let beam_character = BeamCharacter::classify(&num, &den);
        LengthBeamRatio { exact: ExactRatio { num, den }, value, beam_character }
    }
}

} // verus!
