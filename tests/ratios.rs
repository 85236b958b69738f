use boat_ratios::boat::Boat;
use boat_ratios::bignum::BigNat;
use boat_ratios::number::Decimal;
use boat_ratios::displacement_length::{
    DisplacementCharacter, DisplacementLengthRatio, DisplacementTable,
};
use boat_ratios::length_beam::BeamCharacter;
use boat_ratios::ratio::Ratios;
use boat_ratios::sail_area::{SailAreaCharacter, SailAreaDisplacementRatio};
use boat_ratios::si::{Area, Length, Weight};

fn whole(n: u64) -> Decimal {
    Decimal::from_int(n)
}

fn hundredths(n: u64) -> Decimal {
    Decimal::new(n, 2)
}

fn units(value: u128) -> f64 {
    value as f64 / 1_000_000.0
}

#[test]
fn beam_character() {
    let mut boat = Boat::new("".to_string());
    boat.set_b_max(Length::from_foot(hundredths(100)));

    // Beamy.
    boat.set_loa(Length::from_foot(hundredths(200)));
    assert_eq!(Ratios::new(&boat).length_beam_ratio.beam_character, BeamCharacter::Beamy);
    boat.set_loa(Length::from_foot(hundredths(300)));
    assert_eq!(Ratios::new(&boat).length_beam_ratio.beam_character, BeamCharacter::Beamy);

    // Moderate beamy.
    boat.set_loa(Length::from_foot(hundredths(301)));
    assert_eq!(Ratios::new(&boat).length_beam_ratio.beam_character, BeamCharacter::ModerateBeamy);
    boat.set_loa(Length::from_foot(hundredths(329)));
    assert_eq!(Ratios::new(&boat).length_beam_ratio.beam_character, BeamCharacter::ModerateBeamy);

    // Moderate.
    boat.set_loa(Length::from_foot(hundredths(330)));
    assert_eq!(Ratios::new(&boat).length_beam_ratio.beam_character, BeamCharacter::Moderate);
    boat.set_loa(Length::from_foot(hundredths(365)));
    assert_eq!(Ratios::new(&boat).length_beam_ratio.beam_character, BeamCharacter::Moderate);

    // Moderate narrow.
    boat.set_loa(Length::from_foot(hundredths(366)));
    assert_eq!(Ratios::new(&boat).length_beam_ratio.beam_character, BeamCharacter::ModerateNarrow);
    boat.set_loa(Length::from_foot(hundredths(399)));
    assert_eq!(Ratios::new(&boat).length_beam_ratio.beam_character, BeamCharacter::ModerateNarrow);

    // Narrow.
    boat.set_loa(Length::from_foot(hundredths(400)));
    assert_eq!(Ratios::new(&boat).length_beam_ratio.beam_character, BeamCharacter::Narrow);
    boat.set_loa(Length::from_foot(hundredths(500)));
    assert_eq!(Ratios::new(&boat).length_beam_ratio.beam_character, BeamCharacter::Narrow);
}

#[test]
fn displacement_character() {
    let mut boat = Boat::new("".to_string());
    boat.set_dwl(Length::from_foot(whole(32)));

    boat.set_displacement(Weight::from_long_ton(whole(2)));
    assert_eq!(
        Ratios::new(&boat).displacement_length_ratio.displacement_character,
        DisplacementCharacter::Ultralight
    );

    boat.set_displacement(Weight::from_long_ton(whole(4)));
    assert_eq!(
        Ratios::new(&boat).displacement_length_ratio.displacement_character,
        DisplacementCharacter::Light
    );

    boat.set_displacement(Weight::from_long_ton(whole(7)));
    assert_eq!(
        Ratios::new(&boat).displacement_length_ratio.displacement_character,
        DisplacementCharacter::Moderate
    );

    boat.set_displacement(Weight::from_long_ton(whole(9)));
    assert_eq!(
        Ratios::new(&boat).displacement_length_ratio.displacement_character,
        DisplacementCharacter::Heavy
    );

    boat.set_displacement(Weight::from_long_ton(whole(12)));
    assert_eq!(
        Ratios::new(&boat).displacement_length_ratio.displacement_character,
        DisplacementCharacter::Ultraheavy
    );
}

#[test]
fn displacement_length_ratio() {
    let mut boat = Boat::new("".to_string());
    boat.set_loa(Length::from_foot(whole(34)));
    boat.set_dwl(Length::from_foot(whole(32)));
    boat.set_b_max(Length::from_foot(whole(1)));
    boat.set_displacement(Weight::from_pound(whole(15680)));
    assert_eq!(units(Ratios::new(&boat).displacement_length_ratio.value).round(), 214.0);
}

#[test]
fn sail_area_character() {
    let mut boat = Boat::new("".to_string());
    boat.set_displacement(Weight::from_pound(whole(15680)));

    boat.set_sail_area(Area::from_foot2(whole(550)));
    assert_eq!(
        Ratios::new(&boat).sail_area_displacement.sail_area_character,
        SailAreaCharacter::Low
    );

    boat.set_sail_area(Area::from_foot2(whole(704)));
    assert_eq!(
        Ratios::new(&boat).sail_area_displacement.sail_area_character,
        SailAreaCharacter::Moderate
    );

    boat.set_sail_area(Area::from_foot2(whole(800)));
    assert_eq!(
        Ratios::new(&boat).sail_area_displacement.sail_area_character,
        SailAreaCharacter::High
    );
}

#[test]
fn sail_area_displacement() {
    let mut boat = Boat::new("".to_string());
    boat.set_displacement(Weight::from_pound(whole(15680)));
    boat.set_sail_area(Area::from_foot2(whole(704)));
    assert_eq!(units(Ratios::new(&boat).sail_area_displacement.value).round(), 18.0);
}

#[test]
fn sail_area_displacement_scenario_is_moderate() {
    let mut boat = Boat::new("".to_string());
    boat.set_displacement(Weight::from_pound(whole(15680)));
    boat.set_sail_area(Area::from_foot2(whole(704)));
    let r = SailAreaDisplacementRatio::from_boat(&boat);
    assert_eq!(r.value, 17_873_286);
    assert_eq!(r.sail_area_character, SailAreaCharacter::Moderate);
}

#[test]
fn displacement_length_scenario_exact_value() {
    let mut boat = Boat::new("".to_string());
    boat.set_dwl(Length::from_foot(whole(32)));
    boat.set_displacement(Weight::from_pound(whole(15680)));
    let r = DisplacementLengthRatio::from_boat(&boat);
    assert_eq!(r.value, 213_622_651);
    assert_eq!(r.displacement_character, DisplacementCharacter::Moderate);
}

#[test]
fn default_boat_ratios() {
    let boat = Boat::new("Dinghy".to_string());
    let r = Ratios::new(&boat);
    // 4.0 m over 1.2 m.
    assert_eq!(r.length_beam_ratio.value, 3_333_333);
    assert_eq!(r.length_beam_ratio.beam_character, BeamCharacter::Moderate);
    assert_eq!(r.displacement_length_ratio.value, 40_632_075);
    assert_eq!(r.displacement_length_ratio.displacement_character, DisplacementCharacter::Ultralight);
    assert_eq!(r.sail_area_displacement.value, 32_661_388);
    assert_eq!(r.sail_area_displacement.sail_area_character, SailAreaCharacter::High);
}

#[test]
fn ratios_are_the_same_when_computed_twice() {
    let mut boat = Boat::new("Sloop".to_string());
    boat.set_loa(Length::from_foot(whole(34)));
    boat.set_dwl(Length::from_foot(whole(32)));
    boat.set_displacement(Weight::from_pound(whole(15680)));
    boat.set_sail_area(Area::from_foot2(whole(704)));
    let first = Ratios::new(&boat);
    let second = Ratios::new(&boat);
    assert_eq!(first, second);
    let mut renamed = Boat::new("Other".to_string());
    renamed.set_loa(boat.loa());
    renamed.set_dwl(boat.dwl());
    renamed.set_b_max(boat.b_max());
    renamed.set_displacement(boat.displacement());
    renamed.set_sail_area(boat.sail_area());
    assert_eq!(Ratios::new(&renamed), first);
}

fn big(n: u128) -> BigNat {
    BigNat::from_u128(n)
}

#[test]
fn beam_character_bounds() {
    let c = |n: u128, d: u128| BeamCharacter::classify(&big(n), &big(d));
    assert_eq!(c(3, 1), BeamCharacter::Beamy);
    assert_eq!(c(30_000_001, 10_000_000), BeamCharacter::ModerateBeamy);
    assert_eq!(c(329, 100), BeamCharacter::ModerateBeamy);
    assert_eq!(c(33, 10), BeamCharacter::Moderate);
    assert_eq!(c(365, 100), BeamCharacter::Moderate);
    assert_eq!(c(36_500_001, 10_000_000), BeamCharacter::ModerateNarrow);
    assert_eq!(c(399, 100), BeamCharacter::ModerateNarrow);
    assert_eq!(c(4, 1), BeamCharacter::Narrow);
    assert_eq!(c(0, 1), BeamCharacter::Beamy);
}

#[test]
fn beam_just_above_three_is_moderate_beamy() {
    let mut boat = Boat::new("".to_string());
    boat.set_b_max(Length::from_meter(whole(10)));
    boat.set_loa(Length::from_meter(Decimal::new(30_000_001, 6)));
    let r = Ratios::new(&boat).length_beam_ratio;
    assert_eq!(r.beam_character, BeamCharacter::ModerateBeamy);
    // The character follows the exact ratio that the result holds; the
    // display value is that ratio rounded down.
    assert!(r.exact.num == big(30_000_001) && r.exact.den == big(10_000_000));
    assert_eq!(r.beam_character, BeamCharacter::classify(&r.exact.num, &r.exact.den));
    assert_eq!(r.value, 3_000_000);
}

#[test]
fn exact_ratios_are_kept_in_the_results() {
    let mut boat = Boat::new("".to_string());
    boat.set_dwl(Length::from_foot(whole(100)));
    boat.set_displacement(Weight::from_long_ton(Decimal::new(3_600_000_001, 7)));
    let dl = DisplacementLengthRatio::from_boat(&boat);
    assert_eq!(dl.value, 360_000_000);
    assert_eq!(dl.displacement_character, DisplacementCharacter::Ultraheavy);
    let five = DisplacementTable::five_band();
    assert_eq!(dl.displacement_character, five.classify(&dl.exact.num, &dl.exact.den));

    let mut boat = Boat::new("".to_string());
    boat.set_displacement(Weight::from_long_ton(whole(1)));
    boat.set_sail_area(Area::from_meter2(Decimal::new(200_000_001, 7)));
    let sa = SailAreaDisplacementRatio::from_boat(&boat);
    assert_eq!(sa.value, 20_000_000);
    assert_eq!(sa.sail_area_character, SailAreaCharacter::High);
    assert_eq!(sa.sail_area_character, SailAreaCharacter::classify(&sa.cube.num, &sa.cube.den));
}

#[test]
fn ratios_with_a_chosen_table() {
    let mut boat = Boat::new("".to_string());
    boat.set_dwl(Length::from_foot(whole(32)));
    boat.set_displacement(Weight::from_long_ton(whole(7)));
    let six = DisplacementTable::six_band();
    let r = Ratios::with_table(&boat, &six);
    assert_eq!(r.displacement_length_ratio.displacement_character, DisplacementCharacter::ModerateLight);
    let five = Ratios::new(&boat);
    assert_eq!(r.length_beam_ratio, five.length_beam_ratio);
    assert_eq!(r.sail_area_displacement, five.sail_area_displacement);
    assert_eq!(r.displacement_length_ratio.value, five.displacement_length_ratio.value);
}

#[test]
fn five_band_bounds() {
    let t = DisplacementTable::five_band();
    let c = |n: u128, d: u128| t.classify(&big(n), &big(d));
    assert_eq!(c(89_999_999, 1_000_000), DisplacementCharacter::Ultralight);
    assert_eq!(c(90, 1), DisplacementCharacter::Light);
    assert_eq!(c(180, 1), DisplacementCharacter::Moderate);
    assert_eq!(c(270, 1), DisplacementCharacter::Heavy);
    assert_eq!(c(360, 1), DisplacementCharacter::Heavy);
    assert_eq!(c(3_600_000_001, 10_000_000), DisplacementCharacter::Ultraheavy);
}

#[test]
fn six_band_bounds() {
    let t = DisplacementTable::six_band();
    let c = |n: u128, d: u128| t.classify(&big(n), &big(d));
    assert_eq!(c(99_999_999, 1_000_000), DisplacementCharacter::Ultralight);
    assert_eq!(c(100, 1), DisplacementCharacter::Light);
    assert_eq!(c(200, 1), DisplacementCharacter::Light);
    assert_eq!(c(2_000_000_001, 10_000_000), DisplacementCharacter::ModerateLight);
    assert_eq!(c(220, 1), DisplacementCharacter::Moderate);
    assert_eq!(c(280, 1), DisplacementCharacter::Moderate);
    assert_eq!(c(2_800_000_001, 10_000_000), DisplacementCharacter::ModerateHeavy);
    assert_eq!(c(300, 1), DisplacementCharacter::ModerateHeavy);
    assert_eq!(c(3_000_000_001, 10_000_000), DisplacementCharacter::Heavy);
}

#[test]
fn six_band_table_on_a_boat() {
    let mut boat = Boat::new("".to_string());
    boat.set_dwl(Length::from_foot(whole(32)));
    boat.set_displacement(Weight::from_long_ton(whole(7)));
    let t = DisplacementTable::six_band();
    let r = DisplacementLengthRatio::from_boat_with(&boat, &t);
    // 7 long tons on 32 ft give about 213.6.
    assert_eq!(r.displacement_character, DisplacementCharacter::ModerateLight);
    let five = DisplacementLengthRatio::from_boat(&boat);
    assert_eq!(five.value, r.value);
    assert_eq!(five.displacement_character, DisplacementCharacter::Moderate);
}

#[test]
fn sail_area_character_bounds() {
    // The classifier reads the cube of SA/D: 15^3 = 3375, 20^3 = 8000.
    let c = |n: u128, d: u128| SailAreaCharacter::classify(&big(n), &big(d));
    assert_eq!(c(3374, 1), SailAreaCharacter::Low);
    assert_eq!(c(3375, 1), SailAreaCharacter::Moderate);
    assert_eq!(c(8000, 1), SailAreaCharacter::Moderate);
    assert_eq!(c(80_000_001, 10_000), SailAreaCharacter::High);
}

#[test]
fn labels() {
    assert_eq!(BeamCharacter::ModerateNarrow.label(), "Moderate narrow");
    assert_eq!(BeamCharacter::Beamy.label(), "Beamy");
    assert_eq!(DisplacementCharacter::Ultraheavy.label(), "Ultraheavy");
    assert_eq!(DisplacementCharacter::ModerateLight.label(), "Moderate light");
    assert_eq!(SailAreaCharacter::High.label(), "High");
}

#[test]
fn checked_rejects_degenerate_dimensions() {
    let mut boat = Boat::new("".to_string());
    assert_eq!(Ratios::checked(&boat), Some(Ratios::new(&boat)));
    boat.set_b_max(Length::from_meter(whole(0)));
    assert_eq!(Ratios::checked(&boat), None);
    let mut boat = Boat::new("".to_string());
    boat.set_dwl(Length::from_meter(whole(0)));
    assert_eq!(Ratios::checked(&boat), None);
    let mut boat = Boat::new("".to_string());
    boat.set_displacement(Weight::from_kilogram(whole(0)));
    assert_eq!(Ratios::checked(&boat), None);
    boat.set_displacement(Weight::from_gram(Decimal::new(2, 3)));
    assert!(Ratios::checked(&boat).is_some());
}

#[test]
fn ratio_report_of_default_boat() {
    let boat = Boat::new("Dinghy".to_string());
    let r = Ratios::new(&boat);
    assert_eq!(r.length_beam_ratio.render(), "3.33 [Moderate]");
    assert_eq!(r.displacement_length_ratio.render(), "41 [Ultralight]");
    assert_eq!(r.sail_area_displacement.render(), "32.7 [High]");
    assert_eq!(
        r.report(),
        "[Ratio]\n\tL/B:   3.33 [Moderate]\n\tD/L:   41 [Ultralight]\n\tSA/D:  32.7 [High]"
    );
}

#[test]
fn ratio_report_of_cruiser() {
    let mut boat = Boat::new("Cruiser".to_string());
    boat.set_loa(Length::from_foot(whole(34)));
    boat.set_dwl(Length::from_foot(whole(32)));
    boat.set_b_max(Length::from_foot(whole(10)));
    boat.set_displacement(Weight::from_pound(whole(15680)));
    boat.set_sail_area(Area::from_foot2(whole(704)));
    assert_eq!(
        Ratios::new(&boat).report(),
        "[Ratio]\n\tL/B:   3.40 [Moderate]\n\tD/L:   214 [Moderate]\n\tSA/D:  17.9 [Moderate]"
    );
}
