//! One hull design: its name and main dimensions.
use crate::number::{pow10, Decimal, Fraction};
use crate::si::{Area, Length, Weight};
use crate::text::{fixed_text, format_fixed, push_right_aligned, right_aligned};
use vstd::prelude::*;
use vstd::string::StringExecFns;

verus! {

/// A measurement `value`, to `places` decimals, right-aligned in nine
/// characters.
pub open spec fn measure_text(value: Fraction, places: nat) -> Seq<char> {
    right_aligned(fixed_text(value.num as nat, value.den as nat, places), 9)
}

/// Appends a measurement `value`, to `places` decimals, right-aligned in nine
/// characters.
fn push_measure(out: &mut String, value: Fraction, places: u32)
    requires
        value.den > 0,
        places <= 6,
    ensures
        final(out)@ == old(out)@ + measure_text(value, places as nat),
{
    let text = format_fixed(value.num, value.den, places);
    push_right_aligned(out, text.as_str(), 9);
}

/// A boat: the dimensions of one hull design.
///
/// The setters accept any quantity; whether the dimensions allow the design
/// ratios to be computed is checked where they are computed.
pub struct Boat {
    /// The boat's name.
    name: String,
    /// LOA (length overall).
    ///
    /// Equivalent to the length on deck: it includes a reverse transom but no bowsprit,
    /// pulpit or other overhanging gear.
    loa: Length,
    /// DWL (design waterline).
    ///
    /// Also known as LWL (length on the waterline); excludes a surface-piercing rudder.
    dwl: Length,
    /// B max (maximum beam).
    b_max: Length,
    /// Displacement.
    displacement: Weight,
    /// Sail area.
    sail_area: Area,
}

impl Boat {
    /// The boat's name.
    pub closed spec fn spec_name(&self) -> Seq<char> {
        self.name@
    }

    /// LOA (length overall).
    pub closed spec fn spec_loa(&self) -> Length {
        self.loa
    }

    /// DWL (design waterline).
    pub closed spec fn spec_dwl(&self) -> Length {
        self.dwl
    }

    /// B max (maximum beam).
    pub closed spec fn spec_b_max(&self) -> Length {
        self.b_max
    }

    /// Displacement.
    pub closed spec fn spec_displacement(&self) -> Weight {
        self.displacement
    }

    /// Sail area.
    pub closed spec fn spec_sail_area(&self) -> Area {
        self.sail_area
    }

    /// A placeholder dinghy-sized hull named `name`: LOA 4.0 m, DWL 3.8 m,
    /// beam 1.2 m, displacement 80 kg, sail area 6 m2.
    pub fn new(name: String) -> (r: Boat)
        ensures
            r.spec_name() == name@,
            r.spec_loa()@.num == 4 && r.spec_loa()@.den == 1,
            r.spec_dwl()@.num == 38 && r.spec_dwl()@.den == 10,
            r.spec_b_max()@.num == 12 && r.spec_b_max()@.den == 10,
            r.spec_displacement()@.num == 80 && r.spec_displacement()@.den == 1,
            r.spec_sail_area()@.num == 6 && r.spec_sail_area()@.den == 1,
    {
        proof {
            reveal_with_fuel(pow10, 2);
        }
        Boat {
            name,
            loa: Length::from_meter(Decimal::new(4, 0)),
            dwl: Length::from_meter(Decimal::new(38, 1)),
            b_max: Length::from_meter(Decimal::new(12, 1)),
            displacement: Weight::from_kilogram(Decimal::new(80, 0)),
            sail_area: Area::from_meter2(Decimal::new(6, 0)),
        }
    }

    /// A report of the boat's name and dimensions, in metres, kilograms and
    /// square metres.
    pub fn report(&self) -> (r: String)
        ensures
            r@ == "["@ + self.spec_name() + "]\n\tLOA:         "@ + measure_text(self.spec_loa()@, 3)
                + "m\n\tDWL:         "@ + measure_text(self.spec_dwl()@, 3) + "m\n\tBeam:        "@
                + measure_text(self.spec_b_max()@, 3) + "m\n\tDisplacment: "@ + measure_text(
                self.spec_displacement()@,
                0,
            ) + "kg\n\tSail area:   "@ + measure_text(self.spec_sail_area()@, 1) + "m2"@,
    {
        let mut out = String::from_str("[");
        out.append(self.name.as_str());
        out.append("]\n\tLOA:         ");
        push_measure(&mut out, self.loa.to_meter(), 3);
        out.append("m\n\tDWL:         ");
        push_measure(&mut out, self.dwl.to_meter(), 3);
        out.append("m\n\tBeam:        ");
        push_measure(&mut out, self.b_max.to_meter(), 3);
        out.append("m\n\tDisplacment: ");
        push_measure(&mut out, self.displacement.to_kilogram(), 0);
        out.append("kg\n\tSail area:   ");
        push_measure(&mut out, self.sail_area.to_meter2(), 1);
        out.append("m2");
        out
    }

    /// LOA (length overall).
    pub fn loa(&self) -> (r: Length)
        ensures
            r == self.spec_loa(),
    {
        self.loa
    }

    /// Replaces the LOA (length overall).
    pub fn set_loa(&mut self, val: Length)
        ensures
            final(self).spec_loa() == val,
            final(self).spec_name() == old(self).spec_name(),
            final(self).spec_dwl() == old(self).spec_dwl(),
            final(self).spec_b_max() == old(self).spec_b_max(),
            final(self).spec_displacement() == old(self).spec_displacement(),
            final(self).spec_sail_area() == old(self).spec_sail_area(),
    {
        self.loa = val;
    }

    /// DWL (design waterline).
    pub fn dwl(&self) -> (r: Length)
        ensures
            r == self.spec_dwl(),
    {
        self.dwl
    }

    /// Replaces the DWL (design waterline).
    pub fn set_dwl(&mut self, val: Length)
        ensures
            final(self).spec_dwl() == val,
            final(self).spec_name() == old(self).spec_name(),
            final(self).spec_loa() == old(self).spec_loa(),
            final(self).spec_b_max() == old(self).spec_b_max(),
            final(self).spec_displacement() == old(self).spec_displacement(),
            final(self).spec_sail_area() == old(self).spec_sail_area(),
    {
        self.dwl = val;
    }

    /// B max (maximum beam).
    pub fn b_max(&self) -> (r: Length)
        ensures
            r == self.spec_b_max(),
    {
        self.b_max
    }

    /// Replaces the B max (maximum beam).
    pub fn set_b_max(&mut self, val: Length)
        ensures
            final(self).spec_b_max() == val,
            final(self).spec_name() == old(self).spec_name(),
            final(self).spec_loa() == old(self).spec_loa(),
            final(self).spec_dwl() == old(self).spec_dwl(),
            final(self).spec_displacement() == old(self).spec_displacement(),
            final(self).spec_sail_area() == old(self).spec_sail_area(),
    {
        self.b_max = val;
    }

    /// Displacement.
    pub fn displacement(&self) -> (r: Weight)
        ensures
            r == self.spec_displacement(),
    {
        self.displacement
    }

    /// Replaces the displacement.
    pub fn set_displacement(&mut self, val: Weight)
        ensures
            final(self).spec_displacement() == val,
            final(self).spec_name() == old(self).spec_name(),
            final(self).spec_loa() == old(self).spec_loa(),
            final(self).spec_dwl() == old(self).spec_dwl(),
            final(self).spec_b_max() == old(self).spec_b_max(),
            final(self).spec_sail_area() == old(self).spec_sail_area(),
    {
        self.displacement = val;
    }

    /// Sail area.
    pub fn sail_area(&self) -> (r: Area)
        ensures
            r == self.spec_sail_area(),
    {
        self.sail_area
    }

    /// Replaces the sail area.
    pub fn set_sail_area(&mut self, val: Area)
        ensures
            final(self).spec_sail_area() == val,
            final(self).spec_name() == old(self).spec_name(),
            final(self).spec_loa() == old(self).spec_loa(),
            final(self).spec_dwl() == old(self).spec_dwl(),
            final(self).spec_b_max() == old(self).spec_b_max(),
            final(self).spec_displacement() == old(self).spec_displacement(),
    {
        self.sail_area = val;
    }
}

} // verus!
