use particle_life::fixed::{divide, multiply, multiply_divide, saturate, sqrt, sqrt_below, SCALE};

#[test]
fn scale_is_one_million() {
    assert_eq!(SCALE, 1_000_000);
}

#[test]
fn saturate_keeps_what_fits() {
    assert_eq!(saturate(0), 0);
    assert_eq!(saturate(-17), -17);
    assert_eq!(saturate(i64::MAX as i128), i64::MAX);
    assert_eq!(saturate(i64::MIN as i128), i64::MIN);
}

#[test]
fn saturate_stops_at_the_ends() {
    assert_eq!(saturate(i64::MAX as i128 + 1), i64::MAX);
    assert_eq!(saturate(i64::MIN as i128 - 1), i64::MIN);
    assert_eq!(saturate(i128::MAX), i64::MAX);
    assert_eq!(saturate(i128::MIN), i64::MIN);
}

#[test]
fn divide_rounds_toward_zero() {
    assert_eq!(divide(7, 2), 3);
    assert_eq!(divide(-7, 2), -3);
    assert_eq!(divide(7, -2), -3);
    assert_eq!(divide(-7, -2), 3);
    assert_eq!(divide(0, -5), 0);
    assert_eq!(divide(1, 3), 0);
    assert_eq!(divide(-1, 3), 0);
}

#[test]
fn divide_takes_the_ends_of_the_range() {
    assert_eq!(divide(i128::MIN, 1), i128::MIN);
    assert_eq!(divide(i128::MIN, 2), i128::MIN / 2);
    assert_eq!(divide(i128::MIN, i128::MIN), 1);
    assert_eq!(divide(i128::MAX, i128::MIN), 0);
    assert_eq!(divide(i128::MAX, -1), -i128::MAX);
    assert_eq!(divide(i128::MAX, i128::MAX), 1);
    assert_eq!(divide(i128::MIN, i128::MAX), -1);
    assert_eq!(divide(i128::MIN + 1, -1), i128::MAX);
}

#[test]
fn divide_is_odd_in_the_dividend() {
    for a in [1i128, 5, 999_999, 1_000_000, 1_000_001, 123_456_789_012] {
        assert_eq!(divide(-a, 1_000_000), -divide(a, 1_000_000));
    }
}

#[test]
fn multiply_scales_the_product_down() {
    assert_eq!(multiply(2_000_000, 3_000_000), 6_000_000);
    assert_eq!(multiply(500_000, 500_000), 250_000);
    assert_eq!(multiply(-500_000, 500_000), -250_000);
    assert_eq!(multiply(1, 1), 0);
    assert_eq!(multiply(-1, 1), 0);
    assert_eq!(multiply(0, i128::MAX), 0);
    assert_eq!(multiply(1_500_000, 1_000_000), 1_500_000);
}

#[test]
fn multiply_saturates() {
    assert_eq!(multiply(i64::MAX as i128, 2_000_000), i64::MAX);
    assert_eq!(multiply(i64::MIN as i128, 2_000_000), i64::MIN);
    assert_eq!(multiply(i64::MIN as i128, -2_000_000), i64::MAX);
    assert_eq!(multiply(i128::MAX, i128::MAX), i64::MAX);
    assert_eq!(multiply(i128::MAX, i128::MIN), i64::MIN);
    assert_eq!(multiply(i128::MIN, i128::MIN), i64::MAX);
    assert_eq!(multiply(i128::MIN, 1), i64::MIN);
    assert_eq!(multiply(i128::MAX, 1), i64::MAX);
}

#[test]
fn multiply_reaches_the_ends_exactly() {
    assert_eq!(multiply(i64::MAX as i128, 1_000_000), i64::MAX);
    assert_eq!(multiply(i64::MIN as i128, 1_000_000), i64::MIN);
    assert_eq!(multiply(i64::MAX as i128 - 1, 1_000_000), i64::MAX - 1);
}

#[test]
fn sqrt_of_squares() {
    assert_eq!(sqrt(0), 0);
    assert_eq!(sqrt(1), 1);
    assert_eq!(sqrt(25), 5);
    assert_eq!(sqrt(25_000_000_000_000), 5_000_000);
    assert_eq!(sqrt(u64::MAX as u128 * u64::MAX as u128), u64::MAX);
}

#[test]
fn sqrt_rounds_down() {
    assert_eq!(sqrt(2), 1);
    assert_eq!(sqrt(3), 1);
    assert_eq!(sqrt(24), 4);
    assert_eq!(sqrt(26), 5);
    assert_eq!(sqrt(35), 5);
    assert_eq!(sqrt(2_000_000_000_000), 1_414_213);
    assert_eq!(sqrt(u128::MAX), u64::MAX);
    assert_eq!(sqrt(u64::MAX as u128 * u64::MAX as u128 - 1), u64::MAX - 1);
}

#[test]
fn sqrt_brackets_its_argument() {
    let mut n: u128 = 1;
    while n < u128::MAX / 7 {
        let r = sqrt(n) as u128;
        assert!(r * r <= n);
        assert!(n < (r + 1) * (r + 1));
        n = n * 7 + 3;
    }
}

#[test]
fn sqrt_below_agrees_with_sqrt() {
    for n in [0u128, 1, 2, 24, 25, 26, 99, 1_000_000, 25_000_000_000_000, 99_999_999_999_999] {
        assert_eq!(sqrt_below(n, 10_000_000), sqrt(n));
    }
    assert_eq!(sqrt_below(0, 1), 0);
    assert_eq!(sqrt_below(8, 3), 2);
    assert_eq!(sqrt_below(u128::MAX, 1 << 64), u64::MAX);
}

#[test]
fn multiply_divide_rounds_toward_zero() {
    assert_eq!(multiply_divide(7, 3, 2), 10);
    assert_eq!(multiply_divide(-7, 3, 2), -10);
    assert_eq!(multiply_divide(7, -3, 2), -10);
    assert_eq!(multiply_divide(-7, -3, 2), 10);
    assert_eq!(multiply_divide(1, 1, 1), 1);
    assert_eq!(multiply_divide(50_000_000, 40_404_040_404, 1_000_000_000_000), 2_020_202);
}

#[test]
fn multiply_divide_saturates() {
    assert_eq!(multiply_divide(i128::MAX, 2, 1 << 64), i64::MAX);
    assert_eq!(multiply_divide(i128::MAX, -2, 1 << 64), i64::MIN);
    assert_eq!(multiply_divide(i128::MIN, 1, 1 << 64), i64::MIN);
    assert_eq!(multiply_divide(i128::MIN, 1, 1), i64::MIN);
    assert_eq!(multiply_divide(i128::MAX, 1, 1 << 64), i64::MAX);
    assert_eq!(multiply_divide(1 << 126, 1, 1 << 64), 1 << 62);
    assert_eq!(multiply_divide(-(1 << 126), 2, 1 << 64), i64::MIN);
    assert_eq!(multiply_divide(1 << 126, 2, 1 << 64), i64::MAX);
}
