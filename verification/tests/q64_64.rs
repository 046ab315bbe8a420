use cpmm::q64_64::Q64_64;

const SCALE: f64 = 18446744073709551616.0;

/// Reads a fixed-point value back as an `f64`, for approximate checks.
fn to_f64(q: Q64_64) -> f64 {
    let (high_bits, low_bits) = q.split();
    high_bits as f64 + (low_bits as f64) / SCALE
}

/// Builds a fixed-point value from an `f64` in `[0, 2^64)`.
fn from_f64(value: f64) -> Q64_64 {
    let integer_part = value.floor() as u64;
    let fractional_part = ((value - integer_part as f64) * SCALE).round() as u64;
    Q64_64::from_bits(integer_part, fractional_part)
}

#[test]
fn q64_64_test_add() {
    let a = Q64_64::sqrt_from_u128(1);
    let b = Q64_64::sqrt_from_u128(u64::MAX as u128);
    let result = (a.checked_div(b).unwrap()).split();
    println!("{:?}.{:?}", result.0.to_be_bytes(), result.1.to_be_bytes());
    assert_eq!(result.0, 0);
    assert_eq!(result.1, 1u64 << 32);
}

#[test]
fn q64_64_test_new() {
    let q = Q64_64::new(12345);
    assert_eq!(q.raw_value(), 12345);
}

#[test]
fn test_from_u128() {
    let q = Q64_64::from_u128(10);
    assert_eq!(q.raw_value(), 10u128 << 64);
}

#[test]
fn q64_64_test_from_u64() {
    let q = Q64_64::from_u64(42);
    assert_eq!(q.raw_value(), (42u128) << 64);
}

#[test]
fn q64_64_test_to_u64() {
    let q = Q64_64::from_u64(42);
    assert_eq!(q.to_u64(), 42);
}

#[test]
fn q64_64_test_split() {
    let q = from_f64(42.75);
    let (integer, fractional) = q.split();
    assert_eq!(integer, 42);
    let expected_fractional = (0.75 * SCALE) as u64;
    assert_eq!(fractional, expected_fractional);
}

#[test]
fn test_raw_value_access() {
    let mut q = Q64_64::new(0);
    q.set_raw_value(123456);
    assert_eq!(q.raw_value(), 123456);
}

#[test]
fn q64_64_test_add_whole() {
    let q1 = Q64_64::from_u64(10);
    let q2 = Q64_64::from_u64(20);
    assert_eq!(q1.checked_add(q2).unwrap().to_u64(), 30);
}

#[test]
fn q64_64_test_sub() {
    let q1 = Q64_64::from_u64(50);
    let q2 = Q64_64::from_u64(20);
    assert_eq!(q1.checked_sub(q2).unwrap().to_u64(), 30);
}

#[test]
fn q64_64_test_mul() {
    let q1 = Q64_64::from_u64(3);
    let q2 = Q64_64::from_u64(4);
    assert_eq!(q1.checked_mul(q2).unwrap().to_u64(), 12);
}

#[test]
fn q64_64_test_div() {
    let q1 = Q64_64::from_u64(10);
    let q2 = Q64_64::from_u64(2);
    assert_eq!(q1.checked_div(q2).unwrap().to_u64(), 5);
}

#[test]
fn q64_64_test_abs_diff() {
    let q1 = Q64_64::from_u64(50);
    let q2 = Q64_64::from_u64(20);
    assert_eq!(q1.abs_diff(q2).to_u64(), 30);
}

#[test]
fn q64_64_test_fractional_multiplication() {
    let q1 = from_f64(2.5);
    let q2 = from_f64(4.2);
    let result = q1.checked_mul(q2).unwrap();
    assert!((to_f64(result) - 10.5).abs() < 1e-12, "Multiplication failed");
}

#[test]
fn q64_64_test_checked_add() {
    let q1 = Q64_64::from_u128(u128::MAX >> 1);
    let q2 = Q64_64::from_u128(u128::MAX >> 1);
    let q3 = Q64_64::from_u128(1u128);
    let q4 = Q64_64::from_u128(100u128);
    assert!(q1.checked_add(q2).is_none());
    assert_eq!(q3.checked_add(q4).unwrap().to_u64(), 101);
}

#[test]
fn q64_64_test_checked_sub() {
    let q1 = Q64_64::from_u64(50);
    let q2 = Q64_64::from_u64(100);
    assert!(q1.checked_sub(q2).is_none());
    assert_eq!(q2.checked_sub(q1).unwrap().to_u64(), 50u64);
}

#[test]
fn q64_64_test_checked_mul() {
    let q1 = Q64_64::from_u128(u128::MAX >> 1);
    let q2 = Q64_64::from_u128(2);
    let q3 = Q64_64::from_u128(31);
    assert!(q1.checked_mul(q2).is_none());
    assert_eq!(q2.checked_mul(q3).unwrap().to_u64(), 62u64);
}

#[test]
fn q64_64_test_checked_div() {
    let q1 = Q64_64::from_u64(100);
    let q2 = Q64_64::from_u64(0);
    let q3 = Q64_64::from_u64(150);
    let result = q3.checked_div(q1).unwrap();
    assert!(q1.checked_div(q2).is_none());
    assert!((to_f64(result) - 1.5).abs() < 1e-12);
}

#[test]
fn q64_64_test_checked_square_overflow() {
    let q = Q64_64::from_u128(u128::MAX >> 1);
    assert!(q.checked_square_as_u64().is_none(), "Checked square overflow failed");
}

#[test]
fn q64_64_test_extreme_values() {
    let max = Q64_64::max_value();
    assert_eq!(max.raw_value(), u128::MAX);

    let min_fraction = from_f64(1.0 / SCALE);
    assert_eq!(min_fraction.raw_value(), 1);

    let near_max = Q64_64::from_u128(u128::MAX >> 1);
    assert!(near_max.raw_value() < u128::MAX);
}

#[test]
fn q64_64_test_is_zero() {
    let q = Q64_64::from_u64(0);
    assert!(q.is_zero());
    let q = Q64_64::from_u64(1);
    assert!(!q.is_zero());
}

#[test]
fn q64_64_test_is_one() {
    let q = Q64_64::from_u64(1);
    assert!(q.is_one());
    let q = Q64_64::from_u64(0);
    assert!(!q.is_one());
}

#[test]
fn q64_64_test_sqrt_from_u128() {
    let q = Q64_64::sqrt_from_u128(256);
    assert_eq!(q.to_u64(), 16);

    let q = Q64_64::sqrt_from_u128(10);
    assert!((to_f64(q) - 3.16227766).abs() < 1e-9, "Square root approximation failed");
}

#[test]
fn q64_64_test_square_operations() {
    let q = Q64_64::from_u64(3);
    assert_eq!(q.square_as_u128(), 9);
    assert_eq!(q.checked_square_as_u64(), Some(9));
    assert_eq!(q.square_as_u64(), 9);
}

#[test]
fn q64_64_test_square_fractional_number() {
    let q = from_f64(1.5);
    let square = q.square_as_u128();
    let expected = 2u128;
    assert_eq!(square, expected, "Square of fractional number failed");
}

#[test]
fn q64_64_test_square_small_fraction() {
    let q = from_f64(0.25);
    let square = q.square_as_u128();
    let expected = 0u128;
    assert_eq!(square, expected, "Square of small fraction failed");
}

#[test]
fn q64_64_test_square_large_fractional_number() {
    let q = from_f64(12345.6789);
    let square = q.square_as_u128();
    let expected: f64 = 12345.6789 * 12345.6789;
    assert_eq!(square, expected.floor() as u128, "Square of large fractional number failed");
}

#[test]
fn q64_64_test_square_near_one_fraction() {
    let q = from_f64(0.9999);
    let square = q.square_as_u128();
    let expected = 0;
    assert_eq!(square, expected, "Square of near-one fraction failed");
}

#[test]
#[should_panic(expected = "Division by zero!")]
fn q64_64_test_div_panic() {
    let q1 = Q64_64::from_u64(10);
    let q2 = Q64_64::from_u64(0);
    let _ = q1.checked_div(q2).expect("Division by zero!");
}

#[test]
fn q64_64_square_as_q64_64_round_trip() {
    // Squaring the square root of a value comes back to within a billionth.
    let corner_raw_values: [u128; 9] = [
        1,
        2,
        1 << 32,
        1 << 64,
        3 << 63,
        1 << 100,
        1 << 127,
        u128::MAX,
        12345 << 64,
    ];
    let mut i = 0;
    while i < corner_raw_values.len() {
        let value = Q64_64::new(corner_raw_values[i]);
        let sqrt = value.sqrt();
        let square = sqrt.square_as_q64_64();
        let diff = square.abs_diff(value);
        assert!(
            to_f64(diff) <= 1e-9,
            "square of sqrt strayed for raw {}",
            corner_raw_values[i]
        );
        i += 1;
    }
}

#[test]
fn q64_64_sqrt_and_square_u128_round_trip() {
    // The integer round trip loses at most one unit.
    let corner_values: [u128; 10] =
        [1, 2, 1024, 4095, 10000, 65535, 99999, 1 << 32, (1u128 << 64) - 1, 1 << 100];
    let mut i = 0;
    while i < corner_values.len() {
        let value = corner_values[i];
        let sqrt = Q64_64::sqrt_from_u128(value);
        let square = sqrt.square_as_u128();
        assert!(square.abs_diff(value) <= 1, "round trip strayed for {}", value);
        i += 1;
    }
}

#[test]
fn q64_64_div_sqrt_matches_ratio() {
    let q1 = Q64_64::from_u64(250);
    let q2 = Q64_64::from_u64(100);
    let r = Q64_64::div_sqrt(q1, q2).unwrap();
    assert!((to_f64(r) - 2.5f64.sqrt()).abs() < 1e-9);
    assert!(Q64_64::div_sqrt(q1, Q64_64::from_u64(0)).is_none());
    assert!(Q64_64::div_sqrt(q2, q2).unwrap().is_one());
}

#[test]
fn q64_64_as_u64_round_rounds_halves_up() {
    assert_eq!(Q64_64::from_bits(7, 1u64 << 63).as_u64_round(), 8);
    assert_eq!(Q64_64::from_bits(7, (1u64 << 63) - 1).as_u64_round(), 7);
    assert_eq!(Q64_64::from_bits(u64::MAX, u64::MAX).as_u64_round(), u64::MAX);
}
