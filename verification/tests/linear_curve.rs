use launchpad::error::LaunchpadError;
use launchpad::isqrt::integer_sqrt;
use launchpad::linear::{calculate_linear_cost, calculate_linear_price, calculate_linear_tokens};

#[test]
fn test_linear_curve_pricing() {
    // P(S) = base_price + slope * S
    let base_price = 1000u64;
    let slope = 10u64;

    let price_0 = calculate_linear_price(0, base_price, slope).unwrap();
    assert_eq!(price_0, 1000);

    let price_100 = calculate_linear_price(100, base_price, slope).unwrap();
    assert_eq!(price_100, 2000);

    let price_1000 = calculate_linear_price(1000, base_price, slope).unwrap();
    assert_eq!(price_1000, 11000);
}

#[test]
fn test_linear_curve_cost_calculation() {
    let base_price = 1000u64;
    let slope = 10u64;

    // 1000 * 100 + 10 * (100^2 - 0^2) / 2 = 100000 + 50000
    let cost_0_to_100 = calculate_linear_cost(0, 100, base_price, slope).unwrap();
    assert_eq!(cost_0_to_100, 150000);

    // 1000 * 100 + 10 * (200^2 - 100^2) / 2 = 100000 + 150000
    let cost_100_to_200 = calculate_linear_cost(100, 200, base_price, slope).unwrap();
    assert_eq!(cost_100_to_200, 250000);
}

#[test]
fn linear_price_never_falls_with_supply() {
    let mut previous = 0u64;
    for supply in [0u64, 1, 2, 50, 51, 1000, 1_000_000] {
        let price = calculate_linear_price(supply, 7, 3).unwrap();
        assert!(price >= previous);
        previous = price;
    }
}

#[test]
fn linear_price_overflow_is_reported() {
    assert_eq!(
        calculate_linear_price(u64::MAX, 0, 2),
        Err(LaunchpadError::ArithmeticOverflow)
    );
    assert_eq!(
        calculate_linear_price(1, u64::MAX, 1),
        Err(LaunchpadError::ArithmeticOverflow)
    );
    assert_eq!(calculate_linear_price(1, u64::MAX - 1, 1), Ok(u64::MAX));
}

#[test]
fn linear_cost_of_empty_or_reversed_span_is_zero() {
    assert_eq!(calculate_linear_cost(100, 100, 1000, 10), Ok(0));
    assert_eq!(calculate_linear_cost(200, 100, 1000, 10), Ok(0));
    assert_eq!(calculate_linear_cost(u64::MAX, 0, u64::MAX, u64::MAX), Ok(0));
}

#[test]
fn linear_cost_is_additive_over_adjoining_spans() {
    let whole = calculate_linear_cost(0, 200, 1000, 10).unwrap();
    let first = calculate_linear_cost(0, 100, 1000, 10).unwrap();
    let second = calculate_linear_cost(100, 200, 1000, 10).unwrap();
    assert_eq!(whole, 400000);
    assert_eq!(whole, first + second);

    // odd slope, one span of even length
    let whole = calculate_linear_cost(3, 10, 5, 7).unwrap();
    let first = calculate_linear_cost(3, 5, 5, 7).unwrap();
    let second = calculate_linear_cost(5, 10, 5, 7).unwrap();
    assert_eq!(whole, first + second);
}

#[test]
fn linear_cost_drifts_by_one_with_odd_slope_and_odd_spans() {
    // slope 1, spans 0..1 and 1..2: the halves 1/2 and 3/2 each round down
    let whole = calculate_linear_cost(0, 2, 0, 1).unwrap();
    let first = calculate_linear_cost(0, 1, 0, 1).unwrap();
    let second = calculate_linear_cost(1, 2, 0, 1).unwrap();
    assert_eq!(whole, 2);
    assert_eq!(first, 0);
    assert_eq!(second, 1);
    assert_eq!(whole, first + second + 1);
}

#[test]
fn linear_cost_overflow_is_reported() {
    // the square of the end overflows
    assert_eq!(
        calculate_linear_cost(0, 4294967296, 0, 0),
        Err(LaunchpadError::ArithmeticOverflow)
    );
    // the base cost overflows
    assert_eq!(
        calculate_linear_cost(0, 2, u64::MAX, 0),
        Err(LaunchpadError::ArithmeticOverflow)
    );
    // the slope term overflows before halving
    assert_eq!(
        calculate_linear_cost(0, 2, 0, u64::MAX / 2),
        Err(LaunchpadError::ArithmeticOverflow)
    );
    assert_eq!(calculate_linear_cost(0, 2, 0, u64::MAX / 4), Ok((u64::MAX / 4) * 4 / 2));
}

#[test]
fn integer_sqrt_exact_values() {
    assert_eq!(integer_sqrt(0), 0);
    assert_eq!(integer_sqrt(1), 1);
    assert_eq!(integer_sqrt(2), 1);
    assert_eq!(integer_sqrt(3), 1);
    assert_eq!(integer_sqrt(4), 2);
    assert_eq!(integer_sqrt(99), 9);
    assert_eq!(integer_sqrt(100), 10);
    assert_eq!(integer_sqrt(1_000_000), 1000);
    assert_eq!(integer_sqrt(u64::MAX), 4294967295);
    assert_eq!(integer_sqrt(4294967295 * 4294967295), 4294967295);
    assert_eq!(integer_sqrt(4294967295 * 4294967295 - 1), 4294967294);
}

#[test]
fn integer_sqrt_brackets_its_argument() {
    for n in [5u64, 17, 12345, 999_999_999, 1 << 40, (1 << 53) + 1, u64::MAX - 1] {
        let root = integer_sqrt(n) as u128;
        assert!(root * root <= n as u128);
        assert!((root + 1) * (root + 1) > n as u128);
    }
}

#[test]
fn linear_tokens_on_flat_curve_divide_by_base_price() {
    assert_eq!(calculate_linear_tokens(10_000, 0, 1000, 0), Ok(10));
    assert_eq!(calculate_linear_tokens(10_999, 500, 1000, 0), Ok(10));
    assert_eq!(calculate_linear_tokens(999, 0, 1000, 0), Ok(0));
    assert_eq!(
        calculate_linear_tokens(999, 0, 0, 0),
        Err(LaunchpadError::DivisionByZero)
    );
}

#[test]
fn linear_tokens_invert_the_cost() {
    // cost(0, 100) = 150000 at base 1000, slope 10
    assert_eq!(calculate_linear_tokens(150000, 0, 1000, 10), Ok(100));
    assert_eq!(calculate_linear_tokens(149999, 0, 1000, 10), Ok(99));
    // cost(100, 200) = 250000
    assert_eq!(calculate_linear_tokens(250000, 100, 1000, 10), Ok(100));
    assert_eq!(calculate_linear_tokens(249999, 100, 1000, 10), Ok(99));
    assert_eq!(calculate_linear_tokens(0, 100, 1000, 10), Ok(0));
}

#[test]
fn linear_tokens_are_the_most_the_payment_covers() {
    for (payment, supply, base, slope) in [
        (1_000_000u64, 0u64, 1000u64, 10u64),
        (123_456, 77, 13, 2),
        (5, 0, 1, 1),
        (987_654_321, 1000, 999, 7),
    ] {
        let tokens = calculate_linear_tokens(payment, supply, base, slope).unwrap();
        let doubled = |t: u64| -> u128 {
            let (s, e) = (supply as u128, (supply + t) as u128);
            2 * base as u128 * t as u128 + slope as u128 * (e * e - s * s)
        };
        assert!(doubled(tokens) <= 2 * payment as u128);
        assert!(doubled(tokens + 1) > 2 * payment as u128);
        let cost = calculate_linear_cost(supply, supply + tokens, base, slope).unwrap();
        assert!(cost <= payment);
    }
}

#[test]
fn linear_tokens_with_slope_one() {
    // t^2 / 2 + t <= 12  gives t = 4 (cost 12), and t = 5 would cost 17.5
    assert_eq!(calculate_linear_tokens(12, 0, 1, 1), Ok(4));
    assert_eq!(calculate_linear_tokens(11, 0, 1, 1), Ok(3));
}

#[test]
fn linear_tokens_overflow_is_reported() {
    // the price at the supply overflows
    assert_eq!(
        calculate_linear_tokens(1, u64::MAX, 1, 2),
        Err(LaunchpadError::ArithmeticOverflow)
    );
    // the square of the price overflows
    assert_eq!(
        calculate_linear_tokens(1, 0, 4294967296, 1),
        Err(LaunchpadError::ArithmeticOverflow)
    );
    // the slope term of the discriminant overflows
    assert_eq!(
        calculate_linear_tokens(u64::MAX, 0, 1, 2),
        Err(LaunchpadError::ArithmeticOverflow)
    );
}
