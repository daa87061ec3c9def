use soomer::fixed::{
    clamp_to, div_round, div_trunc, ease_toward, mul_div_round, saturate_coord, COORD_LIMIT, ONE,
};

#[test]
fn div_round_rounds_to_nearest_halves_up() {
    assert_eq!(div_round(7, 2), 4);
    assert_eq!(div_round(5, 2), 3);
    assert_eq!(div_round(5, 3), 2);
    assert_eq!(div_round(4, 3), 1);
    assert_eq!(div_round(0, 3), 0);
    assert_eq!(div_round(-4, 3), -1);
    assert_eq!(div_round(-5, 3), -2);
    assert_eq!(div_round(-7, 2), -3);
    assert_eq!(div_round(-9, 2), -4);
    assert_eq!(div_round(-1, 2), 0);
    assert_eq!(div_round(1, 2), 1);
    assert_eq!(div_round(12, 1), 12);
    assert_eq!(div_round(-12, 1), -12);
}

#[test]
fn mul_div_round_takes_the_full_product() {
    assert_eq!(mul_div_round(1_000_000, 1_100_000, ONE), 1_100_000);
    assert_eq!(mul_div_round(1_000_000, ONE, 1_100_000), 909_091);
    assert_eq!(mul_div_round(i64::MAX, i64::MAX, 1), (i64::MAX as i128) * (i64::MAX as i128));
    assert_eq!(mul_div_round(i64::MIN, i64::MIN, i64::MAX), 9_223_372_036_854_775_809);
    assert_eq!(mul_div_round(-3, 5, 2), -7);
    assert_eq!(mul_div_round(3, -5, 10), -1);
}

#[test]
fn div_trunc_drops_the_fraction() {
    assert_eq!(div_trunc(7, 2), 3);
    assert_eq!(div_trunc(-7, 2), -3);
    assert_eq!(div_trunc(-1, 2), 0);
    assert_eq!(div_trunc(1_999_999, ONE), 1);
    assert_eq!(div_trunc(-1_999_999, ONE), -1);
}

#[test]
fn clamp_to_holds_a_value_between_the_bounds() {
    assert_eq!(clamp_to(5, 1, 10), 5);
    assert_eq!(clamp_to(0, 1, 10), 1);
    assert_eq!(clamp_to(11, 1, 10), 10);
    assert_eq!(clamp_to(i128::MAX, -3, 3), 3);
    assert_eq!(clamp_to(i128::MIN, -3, 3), -3);
    assert_eq!(clamp_to(7, 7, 7), 7);
}

#[test]
fn saturate_coord_holds_a_value_to_the_coordinate_range() {
    assert_eq!(saturate_coord(0), 0);
    assert_eq!(saturate_coord(COORD_LIMIT as i128), COORD_LIMIT);
    assert_eq!(saturate_coord(COORD_LIMIT as i128 + 1), COORD_LIMIT);
    assert_eq!(saturate_coord(-(COORD_LIMIT as i128) - 1), -COORD_LIMIT);
    assert_eq!(saturate_coord(-17), -17);
}

#[test]
fn ease_toward_covers_the_share_rounded_away_from_zero() {
    assert_eq!(ease_toward(0, 30_000_000, 150_000), 4_500_000);
    assert_eq!(ease_toward(0, -30_000_000, 150_000), -4_500_000);
    assert_eq!(ease_toward(10, 11, 1), 11);
    assert_eq!(ease_toward(10, 9, 1), 9);
    assert_eq!(ease_toward(0, 7, 500_000), 4);
    assert_eq!(ease_toward(0, -7, 500_000), -4);
    assert_eq!(ease_toward(5, 5, 150_000), 5);
    assert_eq!(ease_toward(-3, 99, ONE), 99);
    assert_eq!(ease_toward(i64::MIN, i64::MAX, ONE), i64::MAX);
    assert_eq!(ease_toward(i64::MAX, i64::MIN, 500_000), -1);
}
