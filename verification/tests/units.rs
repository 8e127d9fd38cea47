use particle_life::units::{clamp, floor_div, floor_mod, Ratio, HUNDREDTH, PX, WEIGHT_ONE, ZOOM_ONE};

#[test]
fn constants_fit_together() {
    assert_eq!(PX, 1 << 24);
    assert_eq!(WEIGHT_ONE, 100 * HUNDREDTH);
    assert_eq!(WEIGHT_ONE, 300 * PX);
    assert_eq!(ZOOM_ONE, 100 * PX);
}

#[test]
fn division_rounds_down() {
    assert_eq!(floor_div(7, 2), 3);
    assert_eq!(floor_div(-7, 2), -4);
    assert_eq!(floor_div(-8, 2), -4);
    assert_eq!(floor_div(0, 5), 0);
    assert_eq!(floor_div(-1, i128::MAX), -1);
}

#[test]
fn remainder_is_not_negative() {
    assert_eq!(floor_mod(7, 4), 3);
    assert_eq!(floor_mod(-7, 4), 1);
    assert_eq!(floor_mod(-8, 4), 0);
    assert_eq!(floor_mod(-1, i128::MAX), i128::MAX - 1);
}

#[test]
fn clamp_to_a_range() {
    assert_eq!([-2, 0, 3, 5, 9].map(|v| clamp(v, 0, 5)), [0, 0, 3, 5, 5]);
    assert_eq!(clamp(7, 1, 1), 1);
}

#[test]
fn hundredths_are_over_a_hundred() {
    assert_eq!(Ratio::hundredths(85), Ratio { num: 85, den: 100 });
}
