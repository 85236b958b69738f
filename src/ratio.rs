//! The design ratios of a hull, each with the qualitative character it
//! indicates.
//!
//! Each ratio result holds its exact value (for SA/D, its exact cube) and
//! the category of that value, decided by comparisons of whole numbers. The
//! value in millionths, rounded down, is carried only for display.
//!
//! The ratios are nondimensional. Comparisons between boats are meaningful for
//! hulls between 25 ft and 75 ft LOA (Perry, Yacht Design According to Perry,
//! 2008, pp. 10-11).
use crate::bignum::{floor_quotient, floor_value, BigNat};
use crate::boat::Boat;
use crate::displacement_length::{
    five_bands, DisplacementBand, DisplacementCharacter, DisplacementLengthRatio,
    DisplacementTable,
};
use crate::length_beam::LengthBeamRatio;
use crate::sail_area::SailAreaDisplacementRatio;
use crate::text::{fixed_text, format_fixed};
use vstd::string::StringExecFns;
use vstd::prelude::*;

verus! {

/// Ratio values are held in millionths.
pub const RATIO_SCALE: u128 = 1_000_000;

/// An exact ratio `num / den`.
#[derive(Debug, PartialEq)]
pub struct ExactRatio {
    pub num: BigNat,
    pub den: BigNat,
}

/// The exact ratio `num / den` in millionths, rounded down (held at
/// `u128::MAX` when larger).
pub open spec fn millionths(num: int, den: int) -> u128 {
    floor_value(num * RATIO_SCALE, den, false)
}

/// The ratio `num / den` in millionths, rounded down.
pub(crate) fn to_millionths(num: &BigNat, den: &BigNat) -> (r: u128)
    requires
        den@ > 0,
    ensures
        r == millionths(num@, den@),
{
    floor_quotient(&num.mul_u128(RATIO_SCALE), den, false)
}

/// A ratio value in millionths shown to `places` decimals, then its label in
/// brackets: `3.33 [Moderate]`.
pub open spec fn rendered(value: u128, places: nat, label: Seq<char>) -> Seq<char> {
    fixed_text(value as nat, RATIO_SCALE as nat, places) + " ["@ + label + "]"@
}

/// Writes a ratio value in millionths to `places` decimals, then its label.
pub(crate) fn render_ratio(value: u128, places: u32, label: &str) -> (r: String)
    requires
        places <= 6,
    ensures
        r@ == rendered(value, places as nat, label@),
{
    let mut out = format_fixed(value, RATIO_SCALE, places);
    out.append(" [");
    out.append(label);
    out.append("]");
    out
}

/// Whether all three ratios can be computed for `boat`: its beam, waterline
/// and displacement are not zero.
pub open spec fn ratios_defined(boat: &Boat) -> bool {
    &&& boat.spec_b_max()@.num > 0
    &&& boat.spec_dwl()@.num > 0
    &&& boat.spec_displacement()@.num > 0
}

/// The design ratios of one boat.
#[derive(Debug, PartialEq)]
pub struct Ratios {
    pub length_beam_ratio: LengthBeamRatio,
    pub displacement_length_ratio: DisplacementLengthRatio,
    pub sail_area_displacement: SailAreaDisplacementRatio,
}

impl Ratios {
    /// These are the three ratios of `boat`, D/L classified by the table of
    /// `bands` and `otherwise`.
    pub open spec fn describes(
        self,
        boat: &Boat,
        bands: Seq<DisplacementBand>,
        otherwise: DisplacementCharacter,
    ) -> bool {
        &&& self.length_beam_ratio.describes(boat)
        &&& self.displacement_length_ratio.describes(boat, bands, otherwise)
        &&& self.sail_area_displacement.describes(boat)
    }

    /// All three ratios of `boat`, D/L classified by the five-band table.
    pub fn new(boat: &Boat) -> (r: Ratios)
        requires
            ratios_defined(boat),
        ensures
            r.describes(boat, five_bands(), DisplacementCharacter::Ultraheavy),
    {
        Ratios {
            length_beam_ratio: LengthBeamRatio::from_boat(boat),
            displacement_length_ratio: DisplacementLengthRatio::from_boat(boat),
            sail_area_displacement: SailAreaDisplacementRatio::from_boat(boat),
        }
    }

    /// All three ratios of `boat`, D/L classified by `table`.
    pub fn with_table(boat: &Boat, table: &DisplacementTable) -> (r: Ratios)
        requires
            ratios_defined(boat),
        ensures
            r.describes(boat, table.bands@, table.otherwise),
    {
        Ratios {
            length_beam_ratio: LengthBeamRatio::from_boat(boat),
            displacement_length_ratio: DisplacementLengthRatio::from_boat_with(boat, table),
            sail_area_displacement: SailAreaDisplacementRatio::from_boat(boat),
        }
    }

    /// The report of all three ratios, one line each after a `[Ratio]`
    /// heading.
    pub fn report(&self) -> (r: String)
        ensures
            r@ == "[Ratio]\n\tL/B:   "@ + rendered(
                self.length_beam_ratio.value,
                2,
                self.length_beam_ratio.beam_character.spec_label(),
            ) + "\n\tD/L:   "@ + rendered(
                self.displacement_length_ratio.value,
                0,
                self.displacement_length_ratio.displacement_character.spec_label(),
            ) + "\n\tSA/D:  "@ + rendered(
                self.sail_area_displacement.value,
                1,
                self.sail_area_displacement.sail_area_character.spec_label(),
            ),
    {
        let mut out = String::from_str("[Ratio]\n\tL/B:   ");
        let lb = self.length_beam_ratio.render();
        out.append(lb.as_str());
        out.append("\n\tD/L:   ");
        let dl = self.displacement_length_ratio.render();
        out.append(dl.as_str());
        out.append("\n\tSA/D:  ");
        let sa = self.sail_area_displacement.render();
        out.append(sa.as_str());
        out
    }

    /// All three ratios of `boat`, or `None` when its beam, waterline or
    /// displacement is zero.
    pub fn checked(boat: &Boat) -> (r: Option<Ratios>)
        ensures
            r.is_some() == ratios_defined(boat),
            r matches Some(x) ==> x.describes(boat, five_bands(), DisplacementCharacter::Ultraheavy),
    {
        let beam = boat.b_max().to_meter();
        let dwl = boat.dwl().to_meter();
        let displacement = boat.displacement().to_kilogram();
        if beam.num > 0 && dwl.num > 0 && displacement.num > 0 {
            Some(Ratios::new(boat))
        } else {
            None
        }
    }
}

/// The ratios depend on a hull's dimensions alone, with no hidden state: two
/// results computed for boats with the same dimensions, whatever their names,
/// and so two results computed for one unchanged boat, hold equal exact
/// ratios, equal display values and equal characters.
pub proof fn lemma_ratios_depend_on_dimensions(
    first: Ratios,
    second: Ratios,
    a: &Boat,
    b: &Boat,
    bands: Seq<DisplacementBand>,
    otherwise: DisplacementCharacter,
)
    requires
        a.spec_loa() == b.spec_loa(),
        a.spec_dwl() == b.spec_dwl(),
        a.spec_b_max() == b.spec_b_max(),
        a.spec_displacement() == b.spec_displacement(),
        a.spec_sail_area() == b.spec_sail_area(),
        first.describes(a, bands, otherwise),
        second.describes(b, bands, otherwise),
    ensures
        first.length_beam_ratio.exact.num@ == second.length_beam_ratio.exact.num@,
        first.length_beam_ratio.exact.den@ == second.length_beam_ratio.exact.den@,
        first.length_beam_ratio.value == second.length_beam_ratio.value,
        first.length_beam_ratio.beam_character == second.length_beam_ratio.beam_character,
        first.displacement_length_ratio.exact.num@ == second.displacement_length_ratio.exact.num@,
        first.displacement_length_ratio.exact.den@ == second.displacement_length_ratio.exact.den@,
        first.displacement_length_ratio.value == second.displacement_length_ratio.value,
        first.displacement_length_ratio.displacement_character
            == second.displacement_length_ratio.displacement_character,
        first.sail_area_displacement.cube.num@ == second.sail_area_displacement.cube.num@,
        first.sail_area_displacement.cube.den@ == second.sail_area_displacement.cube.den@,
        first.sail_area_displacement.value == second.sail_area_displacement.value,
        first.sail_area_displacement.sail_area_character
            == second.sail_area_displacement.sail_area_character,
{
}

} // verus!
