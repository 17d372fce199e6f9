//! The curve model: price, cost and the inverse of cost for every family of
//! curve.
//!
//! The family is a closed choice. `Linear` and `Exponential` have their own
//! modules; `Custom` is declared for families to come and fails every
//! operation with `InvalidCurveParams`.

use vstd::prelude::*;
use crate::error::LaunchpadError;
use crate::exponential::{
    calculate_exponential_cost, calculate_exponential_price, calculate_exponential_tokens,
    spec_exponential_cost, spec_exponential_price, spec_exponential_tokens,
};
use crate::linear::{
    calculate_linear_cost, calculate_linear_price, calculate_linear_tokens, spec_linear_cost,
    spec_linear_price, spec_linear_tokens,
};
use crate::state::{CurveParams, CurveType};

verus! {

/// The marginal price at `supply`.
pub open spec fn spec_current_price(supply: u64, curve_type: CurveType, params: CurveParams)
    -> Result<u64, LaunchpadError> {
    match curve_type {
        CurveType::Linear => spec_linear_price(supply, params.base_price, params.slope),
        CurveType::Exponential => spec_exponential_price(
            supply,
            params.base_price,
            params.slope,
            params.step,
        ),
        CurveType::Custom => Err(LaunchpadError::InvalidCurveParams),
    }
}

/// The payment that moves the supply from `supply_start` to `supply_end`.
pub open spec fn spec_sol_for_token_amount(
    supply_start: u64,
    supply_end: u64,
    curve_type: CurveType,
    params: CurveParams,
) -> Result<u64, LaunchpadError> {
    match curve_type {
        CurveType::Linear => spec_linear_cost(
            supply_start,
            supply_end,
            params.base_price,
            params.slope,
        ),
        CurveType::Exponential => spec_exponential_cost(
            supply_start,
            supply_end,
            params.base_price,
            params.slope,
            params.step,
        ),
        CurveType::Custom => Err(LaunchpadError::InvalidCurveParams),
    }
}

/// The tokens that `sol_amount` buys at `current_supply`.
pub open spec fn spec_tokens_for_sol_amount(
    sol_amount: u64,
    current_supply: u64,
    curve_type: CurveType,
    params: CurveParams,
) -> Result<u64, LaunchpadError> {
    match curve_type {
        CurveType::Linear => spec_linear_tokens(
            sol_amount,
            current_supply,
            params.base_price,
            params.slope,
        ),
        CurveType::Exponential => spec_exponential_tokens(
            sol_amount,
            current_supply,
            params.base_price,
            params.slope,
            params.step,
            params.max_supply,
        ),
        CurveType::Custom => Err(LaunchpadError::InvalidCurveParams),
    }
}

/// Computes the marginal price at `supply`.
///
/// `slope` is the slope of a linear curve and the Q32.32 multiplier of an
/// exponential one. A custom curve fails with `InvalidCurveParams`.
pub fn calculate_current_price(supply: u64, curve_type: &CurveType, curve_params: &CurveParams) -> (r:
    Result<u64, LaunchpadError>)
    ensures
        r == spec_current_price(supply, *curve_type, *curve_params),
        *curve_type == CurveType::Custom ==> r == Err::<u64, LaunchpadError>(
            LaunchpadError::InvalidCurveParams,
        ),
{
    match curve_type {
        CurveType::Linear => calculate_linear_price(
            supply,
            curve_params.base_price,
            curve_params.slope,
        ),
        CurveType::Exponential => calculate_exponential_price(
            supply,
            curve_params.base_price,
            curve_params.slope,
            curve_params.step,
        ),
        CurveType::Custom => Err(LaunchpadError::InvalidCurveParams),
    }
}

/// Computes the payment that moves the supply from `supply_start` to
/// `supply_end`: what a buyer pays for that span, and what a seller gets back
/// for it before fees.
///
/// A custom curve fails with `InvalidCurveParams`.
pub fn calculate_sol_for_token_amount(
    supply_start: u64,
    supply_end: u64,
    curve_type: &CurveType,
    curve_params: &CurveParams,
) -> (r: Result<u64, LaunchpadError>)
    ensures
        r == spec_sol_for_token_amount(supply_start, supply_end, *curve_type, *curve_params),
        *curve_type == CurveType::Custom ==> r == Err::<u64, LaunchpadError>(
            LaunchpadError::InvalidCurveParams,
        ),
{
    match curve_type {
        CurveType::Linear => calculate_linear_cost(
            supply_start,
            supply_end,
            curve_params.base_price,
            curve_params.slope,
        ),
        CurveType::Exponential => calculate_exponential_cost(
            supply_start,
            supply_end,
            curve_params.base_price,
            curve_params.slope,
            curve_params.step,
        ),
        CurveType::Custom => Err(LaunchpadError::InvalidCurveParams),
    }
}

/// Computes the tokens that `sol_amount` buys at `current_supply`: the inverse
/// of the cost.
///
/// A custom curve fails with `InvalidCurveParams`.
pub fn calculate_tokens_for_sol_amount(
    sol_amount: u64,
    current_supply: u64,
    curve_type: &CurveType,
    curve_params: &CurveParams,
) -> (r: Result<u64, LaunchpadError>)
    ensures
        r == spec_tokens_for_sol_amount(sol_amount, current_supply, *curve_type, *curve_params),
        *curve_type == CurveType::Custom ==> r == Err::<u64, LaunchpadError>(
            LaunchpadError::InvalidCurveParams,
        ),
{
    match curve_type {
        CurveType::Linear => calculate_linear_tokens(
            sol_amount,
            current_supply,
            curve_params.base_price,
            curve_params.slope,
        ),
        CurveType::Exponential => calculate_exponential_tokens(
            sol_amount,
            current_supply,
            curve_params.base_price,
            curve_params.slope,
            curve_params.step,
            curve_params.max_supply,
        ),
        CurveType::Custom => Err(LaunchpadError::InvalidCurveParams),
    }
}

} // verus!
