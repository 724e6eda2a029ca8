//! The fixed-point scalar helpers on exact values. One unit is SCALE ticks.

use cyclone::fixed::{fx_div, fx_mul, fx_pow, fx_sqrt, LIM, SCALE};

#[test]
fn mul_exact_values() {
    // 3.5 * 2 == 7
    assert_eq!(fx_mul(3 * SCALE + SCALE / 2, 2 * SCALE), 7 * SCALE);
    // 0.5 * 0.5 == 0.25
    assert_eq!(fx_mul(SCALE / 2, SCALE / 2), SCALE / 4);
    // signs round toward zero symmetrically
    assert_eq!(fx_mul(-3 * SCALE, 2 * SCALE), -6 * SCALE);
    assert_eq!(fx_mul(3, 3), 0);
    assert_eq!(fx_mul(-3, 3), 0);
}

#[test]
fn div_exact_values() {
    assert_eq!(fx_div(7 * SCALE, 2 * SCALE), 3 * SCALE + SCALE / 2);
    assert_eq!(fx_div(SCALE, 8 * SCALE), SCALE / 8);
    assert_eq!(fx_div(-SCALE, 2 * SCALE), -SCALE / 2);
}

#[test]
fn sqrt_exact_values() {
    assert_eq!(fx_sqrt(4 * SCALE), 2 * SCALE);
    assert_eq!(fx_sqrt(25 * SCALE), 5 * SCALE);
    assert_eq!(fx_sqrt(0), 0);
    // sqrt(2) to fixed-point accuracy: result r satisfies r^2 <= 2 < (r+1)^2
    let r = fx_sqrt(2 * SCALE) as i128;
    let n = 2 * (SCALE as i128) * (SCALE as i128);
    assert!(r * r <= n && n < (r + 1) * (r + 1));
}

#[test]
fn pow_exact_values() {
    // anything to the zeroth power is one
    assert_eq!(fx_pow(SCALE / 4, 0), SCALE);
    // 0.25^1 == 0.25
    assert_eq!(fx_pow(SCALE / 4, SCALE), SCALE / 4);
    // 0.5^2 == 0.25
    assert_eq!(fx_pow(SCALE / 2, 2 * SCALE), SCALE / 4);
    // 1^x == 1
    assert_eq!(fx_pow(SCALE, 17 * SCALE + 12345), SCALE);
    // a power of a base below one stays in [0, 1]
    let r = fx_pow(1047527, SCALE / 10);
    assert!(0 <= r && r <= SCALE);
    // 0.25^0.5 == 0.5 up to the fixed-point square root
    let r = fx_pow(SCALE / 4, SCALE / 2);
    assert!((r - SCALE / 2).abs() <= 2);
}

#[test]
fn limits_are_as_documented() {
    assert_eq!(SCALE, 1 << 20);
    assert_eq!(LIM, 1 << 40);
}
