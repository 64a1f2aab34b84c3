use path_tracer::fixed::{
    fp_add, fp_div, fp_from_int, fp_mul, fp_neg, fp_round, fp_sqrt, fp_sub, fp_tan, fp_to_int,
    FP_HALF, FP_ONE, FP_PI, FP_TWO,
};

#[test]
fn add_and_sub_are_exact_in_range() {
    assert_eq!(fp_add(FP_ONE, FP_HALF), 98304);
    assert_eq!(fp_sub(FP_ONE, FP_TWO), -FP_ONE);
    assert_eq!(fp_neg(FP_HALF), -FP_HALF);
}

#[test]
fn add_saturates_at_the_extremes() {
    assert_eq!(fp_add(i64::MAX, 1), i64::MAX);
    assert_eq!(fp_sub(i64::MIN, 1), i64::MIN);
    assert_eq!(fp_neg(i64::MIN), i64::MAX);
}

#[test]
fn mul_matches_hand_computed_products() {
    // 1.5 * 2.0 == 3.0
    assert_eq!(fp_mul(FP_ONE + FP_HALF, FP_TWO), 3 * FP_ONE);
    // 0.5 * 0.5 == 0.25
    assert_eq!(fp_mul(FP_HALF, FP_HALF), 16384);
    // signs carry through, rounding toward zero
    assert_eq!(fp_mul(-FP_HALF, FP_HALF), -16384);
    assert_eq!(fp_mul(3, 3), 0);
}

#[test]
fn div_matches_hand_computed_quotients() {
    assert_eq!(fp_div(3 * FP_ONE, FP_TWO), FP_ONE + FP_HALF);
    assert_eq!(fp_div(-3 * FP_ONE, FP_TWO), -(FP_ONE + FP_HALF));
    // 1 / 3 rounds toward zero
    assert_eq!(fp_div(FP_ONE, 3 * FP_ONE), 21845);
}

#[test]
fn div_by_zero_saturates_by_sign() {
    assert_eq!(fp_div(FP_ONE, 0), i64::MAX);
    assert_eq!(fp_div(-FP_ONE, 0), i64::MIN);
    assert_eq!(fp_div(0, 0), i64::MAX);
}

#[test]
fn sqrt_matches_perfect_squares() {
    assert_eq!(fp_sqrt(FP_ONE), FP_ONE);
    assert_eq!(fp_sqrt(4 * FP_ONE), 2 * FP_ONE);
    // 0.25 -> 0.5
    assert_eq!(fp_sqrt(16384), FP_HALF);
    assert_eq!(fp_sqrt(0), 0);
    assert_eq!(fp_sqrt(-FP_ONE), 0);
}

#[test]
fn int_conversions_round_trip() {
    assert_eq!(fp_from_int(7), 7 * FP_ONE);
    assert_eq!(fp_to_int(fp_from_int(7)), 7);
    assert_eq!(fp_to_int(FP_ONE + FP_HALF), 1);
    assert_eq!(fp_to_int(-(FP_ONE + FP_HALF)), -1);
}

#[test]
fn round_goes_to_the_nearest_integer() {
    assert_eq!(fp_round(FP_ONE + FP_HALF), 2);
    assert_eq!(fp_round(-(FP_ONE + FP_HALF)), -2);
    assert_eq!(fp_round(FP_ONE + 16384), 1);
    assert_eq!(fp_round(FP_ONE + FP_HALF + 16384), 2);
    assert_eq!(fp_round(0), 0);
    assert_eq!(fp_round(-16384), 0);
}

#[test]
fn tan_of_an_eighth_turn_is_near_one() {
    // tan(pi/4) == 1; the truncated series lands within one percent
    let t = fp_tan(fp_div(FP_PI, 4 * FP_ONE));
    assert!((t - FP_ONE).abs() < FP_ONE / 100, "tan(pi/4) = {t}");
}
