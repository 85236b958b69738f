use boat_ratios::text::format_fixed;

#[test]
fn fixed_point_rounds_half_up() {
    assert_eq!(format_fixed(2_005, 1_000, 2), "2.01");
    assert_eq!(format_fixed(2_004, 1_000, 2), "2.00");
    assert_eq!(format_fixed(5, 10, 0), "1");
    assert_eq!(format_fixed(4, 10, 0), "0");
}

#[test]
fn fixed_point_carries_into_the_whole_part() {
    assert_eq!(format_fixed(999_999, 1_000_000, 2), "1.00");
    assert_eq!(format_fixed(9_999_999, 1_000_000, 0), "10");
}

#[test]
fn fixed_point_pads_fraction_digits() {
    assert_eq!(format_fixed(0, 7, 3), "0.000");
    assert_eq!(format_fixed(1_050, 1_000, 3), "1.050");
    assert_eq!(format_fixed(12_345_678, 1_000_000, 1), "12.3");
}

#[test]
fn fixed_point_handles_the_largest_values() {
    assert_eq!(format_fixed(u128::MAX, 1, 0), "340282366920938463463374607431768211455");
    assert_eq!(format_fixed(u128::MAX, 2, 1), "170141183460469231731687303715884105727.5");
}
