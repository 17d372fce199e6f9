use launchpad::error::LaunchpadError;
use launchpad::fixed_point::{
    div_fixed, from_fixed, mul_fixed, pow_fixed, pow_whole, to_fixed, MAX_Q32_32, PRECISION,
};

#[test]
fn test_fixed_point_arithmetic() {
    // conversion
    let value = 100u64;
    let fixed_value = to_fixed(value).unwrap();
    assert_eq!(fixed_value, 100u64 << 32);

    let converted_back = from_fixed(fixed_value);
    assert_eq!(converted_back, value);

    // multiplication
    let a = to_fixed(5).unwrap();
    let b = to_fixed(3).unwrap();
    let result = mul_fixed(a, b).unwrap();
    let result_normal = from_fixed(result);
    assert_eq!(result_normal, 15);

    // division
    let dividend = to_fixed(15).unwrap();
    let divisor = to_fixed(3).unwrap();
    let quotient = div_fixed(dividend, divisor).unwrap();
    let quotient_normal = from_fixed(quotient);
    assert_eq!(quotient_normal, 5);
}

#[test]
fn constants_are_powers_of_two() {
    assert_eq!(PRECISION, 1u64 << 32);
    assert_eq!(MAX_Q32_32, u64::MAX >> 32);
}

#[test]
fn to_fixed_round_trips_every_representable_value() {
    for v in [0u64, 1, 2, 1000, 65535, 65536, MAX_Q32_32 - 1, MAX_Q32_32] {
        assert_eq!(from_fixed(to_fixed(v).unwrap()), v);
    }
}

#[test]
fn to_fixed_overflow_is_reported() {
    assert_eq!(to_fixed(MAX_Q32_32), Ok(MAX_Q32_32 << 32));
    assert_eq!(to_fixed(MAX_Q32_32 + 1), Err(LaunchpadError::ArithmeticOverflow));
    assert_eq!(to_fixed(u64::MAX), Err(LaunchpadError::ArithmeticOverflow));
}

#[test]
fn from_fixed_truncates_the_fraction() {
    assert_eq!(from_fixed(0), 0);
    assert_eq!(from_fixed(PRECISION - 1), 0);
    assert_eq!(from_fixed(PRECISION), 1);
    assert_eq!(from_fixed(PRECISION + PRECISION / 2), 1);
    assert_eq!(from_fixed(u64::MAX), MAX_Q32_32);
}

#[test]
fn mul_fixed_exact_values() {
    let half = PRECISION / 2;
    let three = 3 * PRECISION;
    assert_eq!(mul_fixed(half, three), Ok(PRECISION + half));
    assert_eq!(mul_fixed(half, half), Ok(PRECISION / 4));
    assert_eq!(mul_fixed(0, u64::MAX), Ok(0));
    assert_eq!(mul_fixed(1, 1), Ok(0));
    assert_eq!(mul_fixed(PRECISION, u64::MAX), Ok(u64::MAX));
}

#[test]
fn mul_fixed_overflow_is_reported() {
    assert_eq!(
        mul_fixed(65536 * PRECISION, 65536 * PRECISION),
        Err(LaunchpadError::ArithmeticOverflow)
    );
    assert_eq!(mul_fixed(u64::MAX, u64::MAX), Err(LaunchpadError::ArithmeticOverflow));
    assert_eq!(
        mul_fixed(65535 * PRECISION, 65536 * PRECISION),
        Ok(65535 * 65536 * PRECISION)
    );
}

#[test]
fn div_fixed_exact_values() {
    let one = PRECISION;
    assert_eq!(div_fixed(one, 2 * one), Ok(PRECISION / 2));
    assert_eq!(div_fixed(one, 3 * one), Ok(1431655765));
    assert_eq!(div_fixed(0, one), Ok(0));
    assert_eq!(div_fixed(7 * one, one), Ok(7 * one));
}

#[test]
fn div_fixed_by_zero_is_reported() {
    assert_eq!(div_fixed(PRECISION, 0), Err(LaunchpadError::DivisionByZero));
    assert_eq!(div_fixed(0, 0), Err(LaunchpadError::DivisionByZero));
}

#[test]
fn div_fixed_overflow_is_reported() {
    assert_eq!(div_fixed(u64::MAX, 1), Err(LaunchpadError::ArithmeticOverflow));
    assert_eq!(div_fixed(PRECISION, 1), Err(LaunchpadError::ArithmeticOverflow));
    assert_eq!(div_fixed(PRECISION - 1, 1), Ok((PRECISION - 1) << 32));
}

#[test]
fn pow_fixed_of_whole_numbers() {
    let two = 2 * PRECISION;
    let three = 3 * PRECISION;
    assert_eq!(pow_fixed(two, 0), Ok(PRECISION));
    assert_eq!(pow_fixed(two, PRECISION), Ok(two));
    assert_eq!(pow_fixed(two, 10 * PRECISION), Ok(1024 * PRECISION));
    assert_eq!(pow_fixed(three, 4 * PRECISION), Ok(81 * PRECISION));
    assert_eq!(pow_fixed(PRECISION, 1000 * PRECISION), Ok(PRECISION));
}

#[test]
fn pow_fixed_drops_the_fraction_of_the_exponent() {
    let two = 2 * PRECISION;
    assert_eq!(pow_fixed(two, 3 * PRECISION + PRECISION / 2), Ok(8 * PRECISION));
    assert_eq!(pow_fixed(two, PRECISION - 1), Ok(PRECISION));
    assert_eq!(pow_fixed(two, 1), Ok(PRECISION));
}

#[test]
fn pow_fixed_of_fractional_base() {
    let half = PRECISION / 2;
    assert_eq!(pow_fixed(half, 2 * PRECISION), Ok(PRECISION / 4));
    assert_eq!(pow_fixed(half, 3 * PRECISION), Ok(PRECISION / 8));
    // 1.5 ^ 2 = 2.25
    let one_and_half = PRECISION + half;
    assert_eq!(pow_fixed(one_and_half, 2 * PRECISION), Ok(2 * PRECISION + PRECISION / 4));
}

#[test]
fn pow_fixed_of_zero_base() {
    assert_eq!(pow_fixed(0, 5 * PRECISION), Ok(0));
    assert_eq!(pow_fixed(0, PRECISION), Ok(0));
    // a whole exponent of zero gives one, whatever the base
    assert_eq!(pow_fixed(0, 0), Ok(PRECISION));
    assert_eq!(pow_fixed(0, PRECISION - 1), Ok(PRECISION));
}

#[test]
fn pow_fixed_overflow_is_reported() {
    let two = 2 * PRECISION;
    assert_eq!(pow_fixed(two, 32 * PRECISION), Err(LaunchpadError::ArithmeticOverflow));
    assert_eq!(pow_fixed(two, 40 * PRECISION), Err(LaunchpadError::ArithmeticOverflow));
    assert_eq!(pow_fixed(u64::MAX, 2 * PRECISION), Err(LaunchpadError::ArithmeticOverflow));
}

#[test]
fn pow_fixed_succeeds_wherever_the_power_has_an_encoding() {
    let two = 2 * PRECISION;
    assert_eq!(pow_fixed(two, 15 * PRECISION), Ok(32768 * PRECISION));
    assert_eq!(pow_fixed(two, 16 * PRECISION), Ok(65536 * PRECISION));
    assert_eq!(pow_fixed(two, 31 * PRECISION), Ok((1 << 31) * PRECISION));
    assert_eq!(pow_fixed(65536 * PRECISION, PRECISION), Ok(65536 * PRECISION));
    assert_eq!(pow_fixed(65535 * PRECISION, 2 * PRECISION), Ok(65535 * 65535 * PRECISION));
}

#[test]
fn first_power_is_the_base() {
    for base in [0u64, 1, PRECISION - 1, PRECISION, 3 * PRECISION / 2, 65536 * PRECISION, u64::MAX] {
        assert_eq!(pow_fixed(base, PRECISION), Ok(base));
        assert_eq!(pow_fixed(base, 2 * PRECISION - 1), Ok(base));
        assert_eq!(pow_whole(base, 1), Ok(base));
    }
}

#[test]
fn pow_whole_takes_any_whole_exponent() {
    assert_eq!(pow_whole(2 * PRECISION, 0), Ok(PRECISION));
    assert_eq!(pow_whole(2 * PRECISION, 10), Ok(1024 * PRECISION));
    assert_eq!(pow_whole(PRECISION, u64::MAX), Ok(PRECISION));
    assert_eq!(pow_whole(0, u64::MAX), Ok(0));
    assert_eq!(pow_whole(0, 0), Ok(PRECISION));
    // one half to a power beyond 32 steps has nothing left
    assert_eq!(pow_whole(PRECISION / 2, 33), Ok(0));
    assert_eq!(pow_whole(PRECISION / 2, 32), Ok(1));
    assert_eq!(pow_whole(3 * PRECISION, 41), Err(LaunchpadError::ArithmeticOverflow));
}
