//! Fees in basis points and the slippage check.
//!
//! A fee is rounded down, so rounding never takes from a trader more than the
//! stated rate, and what is left after a fee together with the fee is the
//! whole amount.

use vstd::prelude::*;
use crate::error::LaunchpadError;

verus! {

/// The number of basis points in the whole.
pub const BPS_DENOMINATOR: u64 = 10000;

/// The fee on `amount` at `fee_bps` basis points, rounded down.
pub open spec fn spec_calculate_fee(amount: u64, fee_bps: u16) -> Result<u64, LaunchpadError> {
    if fee_bps == 0 {
        Ok(0)
    } else if fee_bps > BPS_DENOMINATOR {
        Err(LaunchpadError::InvalidFeeBasisPoints)
    } else if amount * fee_bps > u64::MAX {
        Err(LaunchpadError::ArithmeticOverflow)
    } else {
        Ok(((amount * fee_bps) / (BPS_DENOMINATOR as int)) as u64)
    }
}

/// What is left of `amount` after the fee at `fee_bps` basis points.
pub open spec fn spec_calculate_net_amount(amount: u64, fee_bps: u16) -> Result<
    u64,
    LaunchpadError,
> {
    match spec_calculate_fee(amount, fee_bps) {
        Ok(fee) => Ok((amount - fee) as u64),
        Err(e) => Err(e),
    }
}

/// The least amount that a tolerance of `max_slippage_bps` accepts in place of
/// `expected_amount`.
pub open spec fn spec_min_acceptable(expected_amount: u64, max_slippage_bps: u16) -> Result<
    u64,
    LaunchpadError,
> {
    if max_slippage_bps == 0 {
        Ok(expected_amount)
    } else {
        spec_calculate_net_amount(expected_amount, max_slippage_bps)
    }
}

/// Whether `actual_amount` is acceptable in place of `expected_amount`.
///
/// With no tolerance the two must be equal. With a tolerance the actual amount
/// must reach the least acceptable one.
pub open spec fn spec_validate_slippage(
    expected_amount: u64,
    actual_amount: u64,
    max_slippage_bps: u16,
) -> Result<(), LaunchpadError> {
    if max_slippage_bps == 0 {
        if expected_amount == actual_amount {
            Ok(())
        } else {
            Err(LaunchpadError::SlippageExceeded)
        }
    } else {
        match spec_min_acceptable(expected_amount, max_slippage_bps) {
            Err(e) => Err(e),
            Ok(min_acceptable) => if actual_amount < min_acceptable {
                Err(LaunchpadError::SlippageExceeded)
            } else {
                Ok(())
            },
        }
    }
}

/// A fee never exceeds the amount it is taken from.
pub proof fn lemma_fee_at_most_amount(amount: u64, fee_bps: u16)
    ensures
        spec_calculate_fee(amount, fee_bps) matches Ok(fee) ==> fee <= amount,
{
    if 0 < fee_bps <= BPS_DENOMINATOR && amount * fee_bps <= u64::MAX {
        assert((amount * fee_bps) / 10000 <= amount) by (nonlinear_arith)
            requires
                0 <= amount,
                0 < fee_bps <= 10000,
        ;
    }
}

/// Fee and net amount make up the whole: wherever the fee can be computed, the
/// net amount can too, and the two add up to the amount. The fee cannot be
/// computed where the rate is above 10000 or `amount * fee_bps` exceeds 64
/// bits.
pub proof fn lemma_fee_plus_net_is_amount(amount: u64, fee_bps: u16)
    requires
        fee_bps <= BPS_DENOMINATOR,
        amount * fee_bps <= u64::MAX,
    ensures
        spec_calculate_fee(amount, fee_bps) is Ok,
        spec_calculate_net_amount(amount, fee_bps) is Ok,
        spec_calculate_fee(amount, fee_bps).unwrap() + spec_calculate_net_amount(
            amount,
            fee_bps,
        ).unwrap() == amount,
{
    lemma_fee_at_most_amount(amount, fee_bps);
}

/// Computes the fee on `amount` at `fee_bps` basis points, rounded down.
///
/// A rate of zero gives zero. A rate above 10000 fails with
/// `InvalidFeeBasisPoints`, and a product `amount * fee_bps` beyond 64 bits
/// with `ArithmeticOverflow`.
pub fn calculate_fee(amount: u64, fee_bps: u16) -> (r: Result<u64, LaunchpadError>)
    ensures
        r == spec_calculate_fee(amount, fee_bps),
        r matches Ok(fee) ==> fee <= amount,
{
    proof {
        lemma_fee_at_most_amount(amount, fee_bps);
    }
    if fee_bps == 0 {
        return Ok(0);
    }
    if fee_bps > 10000 {
        return Err(LaunchpadError::InvalidFeeBasisPoints);
    }
    match amount.checked_mul(fee_bps as u64) {
        Some(scaled) => Ok(scaled / BPS_DENOMINATOR),
        None => Err(LaunchpadError::ArithmeticOverflow),
    }
}

/// Computes what is left of `amount` after the fee at `fee_bps` basis points.
///
/// Fails where `calculate_fee` does, with the same failure.
pub fn calculate_net_amount(amount: u64, fee_bps: u16) -> (r: Result<u64, LaunchpadError>)
    ensures
        r == spec_calculate_net_amount(amount, fee_bps),
        r matches Ok(net) ==> spec_calculate_fee(amount, fee_bps) == Ok::<u64, LaunchpadError>(
            (amount - net) as u64,
        ),
{
    match calculate_fee(amount, fee_bps) {
        Ok(fee) => match amount.checked_sub(fee) {
            Some(net) => Ok(net),
            None => Err(LaunchpadError::ArithmeticUnderflow),
        },
        Err(e) => Err(e),
    }
}

/// Checks `actual_amount` against `expected_amount` under a tolerance in basis
/// points.
///
/// With a tolerance of zero it succeeds exactly when the two are equal. With a
/// positive tolerance it succeeds exactly when `actual_amount` is at least
/// `expected_amount` less the tolerated share of it, rounded down. It fails
/// with `SlippageExceeded` otherwise, or as `calculate_fee` does where the
/// tolerated share cannot be computed.
pub fn validate_slippage(expected_amount: u64, actual_amount: u64, max_slippage_bps: u16) -> (r:
    Result<(), LaunchpadError>)
    ensures
        r == spec_validate_slippage(expected_amount, actual_amount, max_slippage_bps),
        max_slippage_bps == 0 ==> (r is Ok <==> actual_amount == expected_amount),
        0 < max_slippage_bps <= BPS_DENOMINATOR && expected_amount * max_slippage_bps <= u64::MAX
            ==> (r is Ok <==> actual_amount >= expected_amount - (expected_amount
            * max_slippage_bps) / (BPS_DENOMINATOR as int)),
{
    proof {
        lemma_fee_at_most_amount(expected_amount, max_slippage_bps);
    }
    if max_slippage_bps == 0 {
        if expected_amount != actual_amount {
            return Err(LaunchpadError::SlippageExceeded);
        }
        return Ok(());
    }
    let min_acceptable = match calculate_net_amount(expected_amount, max_slippage_bps) {
        Ok(least) => least,
        Err(e) => {
            return Err(e);
        },
    };
    if actual_amount < min_acceptable {
        return Err(LaunchpadError::SlippageExceeded);
    }
    Ok(())
}

} // verus!
