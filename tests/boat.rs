use boat_ratios::boat::Boat;
use boat_ratios::number::Decimal;
use boat_ratios::si::{Area, Length, Weight};

#[test]
fn new_boat_has_dinghy_defaults() {
    let boat = Boat::new("Dinghy".to_string());
    assert_eq!(boat.loa(), Length::from_meter(Decimal::from_int(4)));
    assert_eq!(boat.dwl(), Length::from_meter(Decimal::new(38, 1)));
    assert_eq!(boat.b_max(), Length::from_meter(Decimal::new(12, 1)));
    assert_eq!(boat.displacement(), Weight::from_kilogram(Decimal::from_int(80)));
    assert_eq!(boat.sail_area(), Area::from_meter2(Decimal::from_int(6)));
}

#[test]
fn setters_change_one_dimension() {
    let mut boat = Boat::new("Dinghy".to_string());
    let before = Boat::new("Dinghy".to_string());
    boat.set_loa(Length::from_foot(Decimal::from_int(13)));
    assert_eq!(boat.loa(), Length::from_foot(Decimal::from_int(13)));
    assert_eq!(boat.dwl(), before.dwl());
    assert_eq!(boat.b_max(), before.b_max());
    assert_eq!(boat.displacement(), before.displacement());
    assert_eq!(boat.sail_area(), before.sail_area());
    boat.set_sail_area(Area::from_foot2(Decimal::from_int(704)));
    assert_eq!(boat.sail_area(), Area::from_foot2(Decimal::from_int(704)));
    assert_eq!(boat.loa(), Length::from_foot(Decimal::from_int(13)));
}

#[test]
fn report_of_default_boat() {
    let boat = Boat::new("Dinghy".to_string());
    let expected = format!(
        "[Dinghy]\n\tLOA:         {:>9}m\n\tDWL:         {:>9}m\n\tBeam:        {:>9}m\n\tDisplacment: {:>9}kg\n\tSail area:   {:>9}m2",
        "4.000", "3.800", "1.200", "80", "6.0"
    );
    assert_eq!(boat.report(), expected);
}

#[test]
fn report_rounds_each_dimension() {
    let mut boat = Boat::new("Sail cruiser".to_string());
    boat.set_loa(Length::from_foot(Decimal::from_int(13)));
    boat.set_b_max(Length::from_foot(Decimal::from_int(4)));
    boat.set_displacement(Weight::from_pound(Decimal::from_int(15680)));
    let expected = format!(
        "[Sail cruiser]\n\tLOA:         {:>9}m\n\tDWL:         {:>9}m\n\tBeam:        {:>9}m\n\tDisplacment: {:>9}kg\n\tSail area:   {:>9}m2",
        "3.962", "3.800", "1.219", "7112", "6.0"
    );
    assert_eq!(boat.report(), expected);
}
