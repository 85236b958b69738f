use boat_ratios::number::{Decimal, Fraction};
use boat_ratios::si::{Area, Length, Weight};

fn approx(f: Fraction) -> f64 {
    f.num as f64 / f.den as f64
}

fn whole(n: u64) -> Decimal {
    Decimal::from_int(n)
}

#[test]
fn length_conversions() {
    let foot = Length::from_foot(whole(1));
    assert_eq!(approx(foot.to_meter()), 0.3048);

    let inch = Length::from_inch(whole(1));
    assert_eq!(approx(inch.to_meter()), 0.0254);

    let millimiter = Length::from_millimeter(whole(1));
    assert_eq!(approx(millimiter.to_meter()), 0.001);

    let meter = Length::from_meter(whole(1));
    assert_eq!(approx(meter.to_meter()), 1.0);

    let loa = Length::from_foot(whole(15)) + Length::from_inch(whole(4));
    assert_eq!(approx(loa.to_millimiter()), 4572.0 + 101.6);
}

#[test]
fn wight_conversions() {
    let kilogram = Weight::from_kilogram(whole(1));
    assert_eq!(approx(kilogram.to_kilogram()), 1.0);
    assert_eq!(approx(kilogram.to_gram()), 1000.0);
    assert_eq!(approx(kilogram.to_pound()), 2.20462);
    assert_eq!(
        format!("{:.8}", approx(kilogram.to_long_ton())),
        format!("{:.8}", 0.00098420)
    );
    assert_eq!(
        format!("{:.8}", approx(kilogram.to_short_ton())),
        format!("{:.8}", 0.00110231)
    );

    let gram = Weight::from_gram(whole(1));
    assert_eq!(approx(gram.to_kilogram()), 0.001);

    let pound = Weight::from_pound(whole(1));
    assert_eq!(
        format!("{:.5}", approx(pound.to_kilogram())),
        format!("{:.5}", 0.45359)
    );

    let long_ton = Weight::from_long_ton(whole(1));
    assert_eq!(approx(long_ton.to_kilogram()), 1016.05);

    let short_ton = Weight::from_short_ton(whole(1));
    assert_eq!(approx(short_ton.to_kilogram()), 907.185);
}

#[test]
fn foot_plus_inch_adds_exactly() {
    let loa = Length::from_foot(whole(15)) + Length::from_inch(whole(4));
    // 4572 mm and 101.6 mm.
    assert!(loa.to_millimiter().equals(&Fraction::new(46_736, 10)));
}

#[test]
fn foot_reads_back_exactly_in_metres_and_feet() {
    let m = Length::from_foot(whole(1)).to_meter();
    assert!(m.equals(&Fraction::new(3048, 10_000)));
    let f = Length::from_foot(Decimal::new(301, 2)).to_foot();
    assert!(f.equals(&Fraction::new(301, 100)));
    let m = Length::from_foot(Decimal::new(1001, 3)).to_meter();
    assert!(m.equals(&Fraction::new(3_051_048, 10_000_000)));
}

#[test]
fn long_ton_reads_back_in_kilograms() {
    let t = Weight::from_long_ton(whole(1)).to_kilogram();
    assert!(t.equals(&Fraction::new(101_605, 100)));
}

#[test]
fn every_unit_round_trips_exactly() {
    for x in [Decimal::new(1234, 2), Decimal::new(10_000_001, 7), Decimal::new(1, 5), whole(1)] {
        let exact = Fraction::new(x.mantissa as u128, 10u128.pow(x.scale));
        assert!(Length::from_meter(x).to_meter().equals(&exact));
        assert!(Length::from_millimeter(x).to_millimiter().equals(&exact));
        assert!(Length::from_inch(x).to_inch().equals(&exact));
        assert!(Length::from_foot(x).to_foot().equals(&exact));
        assert!(Weight::from_kilogram(x).to_kilogram().equals(&exact));
        assert!(Weight::from_gram(x).to_gram().equals(&exact));
        assert!(Weight::from_pound(x).to_pound().equals(&exact));
        assert!(Weight::from_long_ton(x).to_long_ton().equals(&exact));
        assert!(Weight::from_short_ton(x).to_short_ton().equals(&exact));
        assert!(Area::from_meter2(x).to_meter2().equals(&exact));
        assert!(Area::from_foot2(x).to_foot2().equals(&exact));
    }
}

#[test]
fn one_pound_reads_back_as_one_pound() {
    let back = Weight::from_pound(whole(1)).to_pound();
    assert!(back.equals(&Fraction::new(1, 1)));
    assert_eq!(approx(back), 1.0);
    // 1 / 2.20462 kg.
    assert!(Weight::from_pound(whole(1)).to_kilogram().equals(&Fraction::new(100_000, 220_462)));
}

#[test]
fn constructors_keep_every_decimal_place() {
    let tiny = Length::from_millimeter(Decimal::new(4, 4)).to_meter();
    assert!(tiny.equals(&Fraction::new(4, 10_000_000)));
    let m = Length::from_meter(Decimal::new(10_000_001, 7)).to_meter();
    assert!(!m.equals(&Fraction::new(1, 1)));
    assert!(m.equals(&Fraction::new(10_000_001, 10_000_000)));
}

#[test]
fn quantities_add_within_their_dimension() {
    let w = Weight::from_kilogram(whole(1)) + Weight::from_gram(whole(500));
    assert!(w.to_kilogram().equals(&Fraction::new(3, 2)));
    let a = Area::from_meter2(whole(2)) + Area::from_meter2(Decimal::new(5, 1));
    assert!(a.to_meter2().equals(&Fraction::new(5, 2)));
    let l = Length::from_foot(whole(1)) + Length::from_inch(whole(12));
    assert!(l.to_foot().equals(&Fraction::new(2, 1)));
}

#[test]
fn sums_stay_in_lowest_terms() {
    let mut total = Length::from_foot(whole(1));
    for _ in 0..20 {
        total = total + Length::from_foot(whole(1));
    }
    assert!(total.to_foot().equals(&Fraction::new(21, 1)));
    let m = total.to_meter();
    // 21 ft is 6.4008 m, and the sum keeps a small denominator.
    assert!(m.equals(&Fraction::new(64_008, 10_000)));
    assert!(m.den <= 10_000);
}

#[test]
fn same_dimension_division_is_dimensionless() {
    let r = Length::from_foot(whole(34)) / Length::from_foot(whole(1));
    assert_eq!(approx(r), 34.0);
    let w = Weight::from_long_ton(whole(3)) / Weight::from_long_ton(whole(2));
    assert_eq!(approx(w), 1.5);
    let a = Area::from_foot2(whole(10)) / Area::from_foot2(whole(4));
    assert_eq!(approx(a), 2.5);
}
