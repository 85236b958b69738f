//! D/L, the displacement-to-length ratio: whether a hull is light or heavy
//! for its waterline.
use crate::boat::Boat;
use crate::bignum::BigNat;
use crate::number::Fraction;
use crate::ratio::{millionths, render_ratio, rendered, to_millionths, ExactRatio, RATIO_SCALE};
use vstd::prelude::*;

verus! {

/// Whether a boat is light or heavy for its waterline.
#[derive(Clone, Copy, Debug, PartialEq, Eq, Structural)]
pub enum DisplacementCharacter {
    Ultralight,
    Light,
    ModerateLight,
    Moderate,
    ModerateHeavy,
    Heavy,
    Ultraheavy,
}

impl DisplacementCharacter {
    /// The label shown for this character.
    pub open spec fn spec_label(self) -> Seq<char> {
        match self {
            DisplacementCharacter::Ultralight => "Ultralight"@,
            DisplacementCharacter::Light => "Light"@,
            DisplacementCharacter::ModerateLight => "Moderate light"@,
            DisplacementCharacter::Moderate => "Moderate"@,
            DisplacementCharacter::ModerateHeavy => "Moderate heavy"@,
            DisplacementCharacter::Heavy => "Heavy"@,
            DisplacementCharacter::Ultraheavy => "Ultraheavy"@,
        }
    }

    /// The label shown for this character.
    pub fn label(&self) -> (r: &'static str)
        ensures
            r@ == self.spec_label(),
    {
        match self {
            DisplacementCharacter::Ultralight => "Ultralight",
            DisplacementCharacter::Light => "Light",
            DisplacementCharacter::ModerateLight => "Moderate light",
            DisplacementCharacter::Moderate => "Moderate",
            DisplacementCharacter::ModerateHeavy => "Moderate heavy",
            DisplacementCharacter::Heavy => "Heavy",
            DisplacementCharacter::Ultraheavy => "Ultraheavy",
        }
    }
}

/// One band of a D/L table: values below `limit` (or up to it, when
/// `inclusive`) have `character`.
#[derive(Clone, Copy, Debug, PartialEq, Eq, Structural)]
pub struct DisplacementBand {
    /// Upper bound of the band, in millionths.
    pub limit: u128,
    pub inclusive: bool,
    pub character: DisplacementCharacter,
}

impl DisplacementBand {
    /// Whether the exact value `num / den` falls under this band's bound.
    pub open spec fn spec_contains(self, num: int, den: int) -> bool {
        if self.inclusive {
            num * RATIO_SCALE <= self.limit * den
        } else {
            num * RATIO_SCALE < self.limit * den
        }
    }

    /// Whether the exact value `num / den` falls under this band's bound.
    pub fn contains(&self, num: &BigNat, den: &BigNat) -> (r: bool)
        ensures
            r == self.spec_contains(num@, den@),
    {
        let scaled = num.mul_u128(RATIO_SCALE);
        let bound = den.mul_u128(self.limit);
        proof {
            assert(den@ * self.limit == self.limit * den@) by (nonlinear_arith);
        }
        if self.inclusive {
            scaled.le(&bound)
        } else {
            scaled.lt(&bound)
        }
    }
}

/// The character that `bands`, read in order, give the value `num / den`:
/// that of the first band containing it, else `otherwise`.
pub open spec fn classify_bands(
    bands: Seq<DisplacementBand>,
    otherwise: DisplacementCharacter,
    num: int,
    den: int,
) -> DisplacementCharacter
    decreases bands.len(),
{
    if bands.len() == 0 {
        otherwise
    } else if bands[0].spec_contains(num, den) {
        bands[0].character
    } else {
        classify_bands(bands.drop_first(), otherwise, num, den)
    }
}

/// The bands of the five-band table.
pub open spec fn five_bands() -> Seq<DisplacementBand> {
    seq![
        DisplacementBand { limit: 90_000_000, inclusive: false, character: DisplacementCharacter::Ultralight },
        DisplacementBand { limit: 180_000_000, inclusive: false, character: DisplacementCharacter::Light },
        DisplacementBand { limit: 270_000_000, inclusive: false, character: DisplacementCharacter::Moderate },
        DisplacementBand { limit: 360_000_000, inclusive: true, character: DisplacementCharacter::Heavy },
    ]
}

/// The displacement character of the D/L value `num / den` (`den > 0`)
/// under the five-band table: below 90 ultralight, below 180 light, below
/// 270 moderate, up to 360 heavy, above that ultraheavy.
pub open spec fn displacement_character_of(num: int, den: int) -> DisplacementCharacter {
    if num < 90 * den {
        DisplacementCharacter::Ultralight
    } else if num < 180 * den {
        DisplacementCharacter::Light
    } else if num < 270 * den {
        DisplacementCharacter::Moderate
    } else if num <= 360 * den {
        DisplacementCharacter::Heavy
    } else {
        DisplacementCharacter::Ultraheavy
    }
}

/// Comparing in millionths agrees with comparing whole values.
proof fn lemma_millionths_compare(num: int, den: int, k: int)
    ensures
        (num * RATIO_SCALE <= (k * RATIO_SCALE) * den) == (num <= k * den),
        (num * RATIO_SCALE < (k * RATIO_SCALE) * den) == (num < k * den),
{
    assert((k * RATIO_SCALE) * den == (k * den) * RATIO_SCALE) by (nonlinear_arith);
}

/// The five-band table read band by band agrees with its bounds written out.
pub proof fn lemma_five_bands(num: int, den: int)
    ensures
        classify_bands(five_bands(), DisplacementCharacter::Ultraheavy, num, den)
            == displacement_character_of(num, den),
{
    let b0 = five_bands();
    let b1 = b0.drop_first();
    let b2 = b1.drop_first();
    let b3 = b2.drop_first();
    let b4 = b3.drop_first();
    assert(b1 =~= b0.subrange(1, 4));
    assert(b2 =~= b0.subrange(2, 4));
    assert(b3 =~= b0.subrange(3, 4));
    assert(b4.len() == 0);
    assert(classify_bands(b4, DisplacementCharacter::Ultraheavy, num, den)
        == DisplacementCharacter::Ultraheavy);
    assert(b3[0] == b0[3] && b2[0] == b0[2] && b1[0] == b0[1]);
    let u = DisplacementCharacter::Ultraheavy;
    lemma_millionths_compare(num, den, 90);
    lemma_millionths_compare(num, den, 180);
    lemma_millionths_compare(num, den, 270);
    lemma_millionths_compare(num, den, 360);
    assert(b0[3].limit == 360_000_000 && b0[3].inclusive);
    assert(b0[2].limit == 270_000_000 && !b0[2].inclusive);
    assert(b0[1].limit == 180_000_000 && !b0[1].inclusive);
    assert(b0[0].limit == 90_000_000 && !b0[0].inclusive);
    assert(b3[0].spec_contains(num, den) == (num <= 360 * den));
    assert(b2[0].spec_contains(num, den) == (num < 270 * den));
    assert(b1[0].spec_contains(num, den) == (num < 180 * den));
    assert(b0[0].spec_contains(num, den) == (num < 90 * den));
    assert(classify_bands(b3, u, num, den) == (if num <= 360 * den {
        DisplacementCharacter::Heavy
    } else {
        u
    }));
    assert(classify_bands(b2, u, num, den) == (if num < 270 * den {
        DisplacementCharacter::Moderate
    } else {
        classify_bands(b3, u, num, den)
    }));
    assert(classify_bands(b1, u, num, den) == (if num < 180 * den {
        DisplacementCharacter::Light
    } else {
        classify_bands(b2, u, num, den)
    }));
    assert(classify_bands(b0, u, num, den) == (if num < 90 * den {
        DisplacementCharacter::Ultralight
    } else {
        classify_bands(b1, u, num, den)
    }));
}

/// Every character of the five-band table is given to some D/L value.
pub proof fn lemma_five_band_characters_reachable(c: DisplacementCharacter)
    requires
        c != DisplacementCharacter::ModerateLight,
        c != DisplacementCharacter::ModerateHeavy,
    ensures
        exists|num: int| 0 <= num && #[trigger] displacement_character_of(num, 1) == c,
{
    let num = match c {
        DisplacementCharacter::Ultralight => 0,
        DisplacementCharacter::Light => 90,
        DisplacementCharacter::Moderate => 180,
        DisplacementCharacter::Heavy => 360,
        _ => 361,
    };
    assert(displacement_character_of(num, 1) == c);
}

/// The bands of the six-band table.
pub open spec fn six_bands() -> Seq<DisplacementBand> {
    seq![
        DisplacementBand { limit: 100_000_000, inclusive: false, character: DisplacementCharacter::Ultralight },
        DisplacementBand { limit: 200_000_000, inclusive: true, character: DisplacementCharacter::Light },
        DisplacementBand { limit: 220_000_000, inclusive: false, character: DisplacementCharacter::ModerateLight },
        DisplacementBand { limit: 280_000_000, inclusive: true, character: DisplacementCharacter::Moderate },
        DisplacementBand { limit: 300_000_000, inclusive: true, character: DisplacementCharacter::ModerateHeavy },
    ]
}

/// Every character of the six-band table is given to some D/L value.
pub proof fn lemma_six_band_characters_reachable(c: DisplacementCharacter)
    requires
        c != DisplacementCharacter::Ultraheavy,
    ensures
        exists|num: int|
            0 <= num && #[trigger] classify_bands(six_bands(), DisplacementCharacter::Heavy, num, 1)
                == c,
{
    reveal_with_fuel(classify_bands, 6);
    let num = match c {
        DisplacementCharacter::Ultralight => 0,
        DisplacementCharacter::Light => 200,
        DisplacementCharacter::ModerateLight => 201,
        DisplacementCharacter::Moderate => 280,
        DisplacementCharacter::ModerateHeavy => 300,
        _ => 301,
    };
    assert(classify_bands(six_bands(), DisplacementCharacter::Heavy, num, 1) == c);
}

/// A D/L classification table: bands tried in order, and the character of
/// values beyond all of them.
///
/// The literature gives more than one table, so the table is a value that a
/// caller picks.
#[derive(Debug)]
pub struct DisplacementTable {
    pub bands: Vec<DisplacementBand>,
    pub otherwise: DisplacementCharacter,
}

impl DisplacementTable {
    /// Five bands: below 90 ultralight, below 180 light, below 270 moderate,
    /// up to 360 heavy, above that ultraheavy.
    pub fn five_band() -> (r: DisplacementTable)
        ensures
            r.bands@ == five_bands(),
            r.otherwise == DisplacementCharacter::Ultraheavy,
    {
        DisplacementTable {
            bands: vec![
                DisplacementBand { limit: 90_000_000, inclusive: false, character: DisplacementCharacter::Ultralight },
                DisplacementBand { limit: 180_000_000, inclusive: false, character: DisplacementCharacter::Light },
                DisplacementBand { limit: 270_000_000, inclusive: false, character: DisplacementCharacter::Moderate },
                DisplacementBand { limit: 360_000_000, inclusive: true, character: DisplacementCharacter::Heavy },
            ],
            otherwise: DisplacementCharacter::Ultraheavy,
        }
    }

    /// Six bands: below 100 ultralight, up to 200 light, below 220 moderate
    /// light, up to 280 moderate, up to 300 moderate heavy, above that heavy.
    pub fn six_band() -> (r: DisplacementTable)
        ensures
            r.bands@ == six_bands(),
            r.otherwise == DisplacementCharacter::Heavy,
    {
        DisplacementTable {
            bands: vec![
                DisplacementBand { limit: 100_000_000, inclusive: false, character: DisplacementCharacter::Ultralight },
                DisplacementBand { limit: 200_000_000, inclusive: true, character: DisplacementCharacter::Light },
                DisplacementBand { limit: 220_000_000, inclusive: false, character: DisplacementCharacter::ModerateLight },
                DisplacementBand { limit: 280_000_000, inclusive: true, character: DisplacementCharacter::Moderate },
                DisplacementBand { limit: 300_000_000, inclusive: true, character: DisplacementCharacter::ModerateHeavy },
            ],
            otherwise: DisplacementCharacter::Heavy,
        }
    }

    /// The character this table gives the exact D/L value `num / den`.
    pub fn classify(&self, num: &BigNat, den: &BigNat) -> (r: DisplacementCharacter)
        ensures
            r == classify_bands(self.bands@, self.otherwise, num@, den@),
    {
        let mut i: usize = 0;
        assert(self.bands@.skip(0) =~= self.bands@);
        while i < self.bands.len()
            invariant
                i <= self.bands@.len(),
                classify_bands(self.bands@, self.otherwise, num@, den@) == classify_bands(
                    self.bands@.skip(i as int),
                    self.otherwise,
                    num@,
                    den@,
                ),
            decreases self.bands@.len() - i,
        {
            let band = &self.bands[i];
            let ghost rest = self.bands@.skip(i as int);
            assert(rest[0] == *band);
            assert(rest.drop_first() =~= self.bands@.skip(i + 1));
            if band.contains(num, den) {
                return band.character;
            }
            i = i + 1;
        }
        assert(self.bands@.skip(i as int).len() == 0);
        self.otherwise
    }
}

/// `3048^3`: D/L measures the waterline in hundreds of feet, 30.48 m each.
pub const FOOT_CUBED: u128 = 28_316_846_592;

/// The numerator of D/L as an exact fraction: the displacement in long tons
/// (1016.05 kg each) over the cube of the waterline in hundreds of feet.
pub open spec fn displacement_length_num(displacement: Fraction, dwl: Fraction) -> int {
    displacement.num * dwl.den * dwl.den * dwl.den * FOOT_CUBED
}

/// The denominator of D/L as an exact fraction.
pub open spec fn displacement_length_den(displacement: Fraction, dwl: Fraction) -> int {
    displacement.den * 101_605 * dwl.num * dwl.num * dwl.num * 10_000
}

/// D/L (displacement-to-length ratio): tells whether a boat is heavy or light.
/// Below 200 suggests a racing boat, above about 300 a heavy cruiser.
#[derive(Debug, PartialEq)]
pub struct DisplacementLengthRatio {
    /// The exact ratio.
    pub exact: ExactRatio,
    /// The exact ratio in millionths, rounded down, for display.
    pub value: u128,
    /// The character of the exact ratio.
    pub displacement_character: DisplacementCharacter,
}

impl DisplacementLengthRatio {
    /// This is the D/L ratio of `boat` under the table of `bands` and
    /// `otherwise`: the exact ratio, its display value and its character.
    pub open spec fn describes(
        self,
        boat: &Boat,
        bands: Seq<DisplacementBand>,
        otherwise: DisplacementCharacter,
    ) -> bool {
        &&& self.exact.num@ == displacement_length_num(boat.spec_displacement()@, boat.spec_dwl()@)
        &&& self.exact.den@ == displacement_length_den(boat.spec_displacement()@, boat.spec_dwl()@)
        &&& self.value == millionths(self.exact.num@, self.exact.den@)
        &&& self.displacement_character == classify_bands(
            bands,
            otherwise,
            self.exact.num@,
            self.exact.den@,
        )
    }

    /// The value to a whole number and the character.
    pub fn render(&self) -> (r: String)
        ensures
            r@ == rendered(self.value, 0, self.displacement_character.spec_label()),
    {
        render_ratio(self.value, 0, self.displacement_character.label())
    }

    /// The D/L ratio of `boat`, classified by the five-band table.
    pub fn from_boat(boat: &Boat) -> (r: DisplacementLengthRatio)
        requires
            boat.spec_dwl()@.num > 0,
        ensures
            r.describes(boat, five_bands(), DisplacementCharacter::Ultraheavy),
            r.displacement_character == displacement_character_of(r.exact.num@, r.exact.den@),
            r.exact.den@ > 0,
    {
        let table = DisplacementTable::five_band();
        let r = Self::from_boat_with(boat, &table);
        proof {
            lemma_five_bands(r.exact.num@, r.exact.den@);
        }
        r
    }

    /// The D/L ratio of `boat`, classified by `table`.
    pub fn from_boat_with(boat: &Boat, table: &DisplacementTable) -> (r: DisplacementLengthRatio)
        requires
            boat.spec_dwl()@.num > 0,
        ensures
            r.describes(boat, table.bands@, table.otherwise),
            r.exact.den@ > 0,
    {
        let w = boat.displacement().to_kilogram();
        let l = boat.dwl().to_meter();
        let num = BigNat::from_u128(w.num).mul_u128(l.den).mul_u128(l.den).mul_u128(l.den).mul_u128(
            FOOT_CUBED,
        );
        let den = BigNat::from_u128(w.den).mul_u128(101_605).mul_u128(l.num).mul_u128(
            l.num,
        ).mul_u128(l.num).mul_u128(10_000);
        proof {
            let a = w.den as int;
            let b = l.num as int;
            assert(a * 101_605 * b * b * b * 10_000 > 0) by (nonlinear_arith)
                requires
                    a > 0,
                    b > 0,
            ;
        }
        let value = to_millionths(&num, &den);
        let displacement_character = table.classify(&num, &den);
        DisplacementLengthRatio { exact: ExactRatio { num, den }, value, displacement_character }
    }
}

} // verus!
