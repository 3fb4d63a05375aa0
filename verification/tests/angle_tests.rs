use sunangel::angle::{AngleExtensions, FULL_TURN_MICRODEGREES, TAU_MICRORADIANS};

#[test]
fn normalize_radians() {
    let want: i64 = 2_000_000 / 3;
    let high: i64 = want + 1000 * TAU_MICRORADIANS;
    assert_eq!(want, high.normalize_radians());
}

#[test]
fn normalize_radians_negative() {
    let angle: i64 = -1;
    assert_eq!(TAU_MICRORADIANS - 1, angle.normalize_radians());
}

#[test]
fn normalize_radians_in_range() {
    let angle: i64 = 1_000_000;
    assert_eq!(angle, angle.normalize_radians());
}

#[test]
fn normalize_degrees_full_turns() {
    let want: i64 = 12_500_000;
    let high: i64 = want + 20 * FULL_TURN_MICRODEGREES;
    assert_eq!(want, high.normalize_degrees());
}
