use barter::fixed::{abs_i64, div_scaled, mul_scaled, mul_scaled_signed, SCALE};

#[test]
fn scale_is_a_hundred_million() {
    assert_eq!(SCALE, 100_000_000);
}

#[test]
fn abs_of_signed_values() {
    assert_eq!(abs_i64(0), 0);
    assert_eq!(abs_i64(17), 17);
    assert_eq!(abs_i64(-17), 17);
    assert_eq!(abs_i64(i64::MAX), 9_223_372_036_854_775_807);
    assert_eq!(abs_i64(i64::MIN), 9_223_372_036_854_775_808);
}

#[test]
fn product_of_whole_numbers() {
    assert_eq!(mul_scaled(10 * SCALE, 10 * SCALE), Some(100 * SCALE));
    assert_eq!(mul_scaled(0, u64::MAX), Some(0));
    assert_eq!(mul_scaled(SCALE, u64::MAX), Some(u64::MAX));
}

#[test]
fn product_rounds_down() {
    // 0.00000003 x 0.5 = 0.000000015
    assert_eq!(mul_scaled(3, SCALE / 2), Some(1));
    assert_eq!(mul_scaled(1, SCALE - 1), Some(0));
}

#[test]
fn product_too_large_is_none() {
    assert_eq!(mul_scaled(u64::MAX, u64::MAX), None);
    assert_eq!(mul_scaled(u64::MAX, SCALE + 1), None);
}

#[test]
fn quotient_of_whole_numbers() {
    assert_eq!(div_scaled(1_000 * SCALE, 10 * SCALE), Some(100 * SCALE));
    assert_eq!(div_scaled(0, 5), Some(0));
    // 1 / 3 = 0.33333333
    assert_eq!(div_scaled(SCALE, 3 * SCALE), Some(33_333_333));
}

#[test]
fn quotient_by_zero_or_too_large_is_none() {
    assert_eq!(div_scaled(1, 0), None);
    assert_eq!(div_scaled(u64::MAX, 1), None);
}

#[test]
fn signed_product_takes_the_sign_of_both_factors() {
    let low = -100 * SCALE as i64;
    let high = 100 * SCALE as i64;
    assert_eq!(mul_scaled_signed(high, false, 2 * SCALE), 200 * SCALE as i128);
    assert_eq!(mul_scaled_signed(high, true, 2 * SCALE), -200 * SCALE as i128);
    assert_eq!(mul_scaled_signed(low, false, 2 * SCALE), -200 * SCALE as i128);
    assert_eq!(mul_scaled_signed(low, true, 2 * SCALE), 200 * SCALE as i128);
    assert_eq!(mul_scaled_signed(low, true, 0), 0);
    assert_eq!(mul_scaled_signed(0, true, 5), 0);
}

#[test]
fn signed_product_rounds_toward_zero() {
    assert_eq!(mul_scaled_signed(3, false, SCALE / 2), 1);
    assert_eq!(mul_scaled_signed(-3, false, SCALE / 2), -1);
    assert_eq!(mul_scaled_signed(3, true, SCALE / 2), -1);
}

#[test]
fn signed_product_of_the_largest_factors_fits() {
    let product = mul_scaled_signed(i64::MIN, true, u64::MAX);
    assert_eq!(product, (9_223_372_036_854_775_808u128 * u64::MAX as u128 / 100_000_000) as i128);
}
