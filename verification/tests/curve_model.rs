use launchpad::curve::{
    calculate_current_price, calculate_sol_for_token_amount, calculate_tokens_for_sol_amount,
};
use launchpad::error::LaunchpadError;
use launchpad::fixed_point::PRECISION;
use launchpad::state::{CurveParams, CurveType};

fn params(base_price: u64, slope: u64, step: u64, max_supply: u64) -> CurveParams {
    CurveParams { base_price, slope, step, max_supply, reserved: [0; 4] }
}

#[test]
fn linear_family_uses_the_linear_curve() {
    let p = params(1000, 10, 1, 1_000_000);
    assert_eq!(calculate_current_price(100, &CurveType::Linear, &p), Ok(2000));
    assert_eq!(calculate_sol_for_token_amount(0, 100, &CurveType::Linear, &p), Ok(150000));
    assert_eq!(calculate_tokens_for_sol_amount(150000, 0, &CurveType::Linear, &p), Ok(100));
}

#[test]
fn exponential_family_uses_the_exponential_curve() {
    let p = params(1000, 2 * PRECISION, 100, 1_000_000);
    assert_eq!(calculate_current_price(0, &CurveType::Exponential, &p), Ok(1000));
    assert_eq!(calculate_current_price(100, &CurveType::Exponential, &p), Ok(2000));
    assert_eq!(
        calculate_sol_for_token_amount(0, 100, &CurveType::Exponential, &p),
        Ok(150000)
    );
    let flat = params(1, PRECISION, 1000, 1_000_000);
    assert_eq!(
        calculate_tokens_for_sol_amount(2000, 0, &CurveType::Exponential, &flat),
        Ok(2000)
    );
}

#[test]
fn custom_family_fails_every_operation() {
    let p = params(1000, 10, 1, 1_000_000);
    assert_eq!(
        calculate_current_price(0, &CurveType::Custom, &p),
        Err(LaunchpadError::InvalidCurveParams)
    );
    assert_eq!(
        calculate_sol_for_token_amount(0, 100, &CurveType::Custom, &p),
        Err(LaunchpadError::InvalidCurveParams)
    );
    assert_eq!(
        calculate_tokens_for_sol_amount(1000, 0, &CurveType::Custom, &p),
        Err(LaunchpadError::InvalidCurveParams)
    );
}
