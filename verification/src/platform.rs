//! The platform: its one-time initialisation and the withdrawal of the fees
//! it has collected.

use vstd::prelude::*;
use crate::error::LaunchpadError;
use crate::state::{GlobalState, Pubkey};

verus! {

/// The highest platform fee that initialisation accepts, in basis points.
pub const MAX_PLATFORM_FEE_BPS: u16 = 1000;

/// The configuration that initialisation gives the platform: not paused, and
/// the initialising authority may also upgrade.
pub open spec fn spec_initial_global_state(
    authority: Pubkey,
    fee_vault: Pubkey,
    platform_fee_bps: u16,
    bump: u8,
) -> GlobalState {
    GlobalState {
        authority,
        platform_fee_bps,
        fee_vault,
        paused: false,
        upgrade_authority: authority,
        bump,
    }
}

/// Initialises the platform.
///
/// Fails with `InvalidFeeBasisPoints` exactly when the fee exceeds 1000 basis
/// points. Otherwise the platform starts unpaused under `authority`, with the
/// given fee and fee vault.
pub fn initialize_global_state(
    authority: &Pubkey,
    fee_vault: &Pubkey,
    platform_fee_bps: u16,
    bump: u8,
) -> (r: Result<GlobalState, LaunchpadError>)
    ensures
        platform_fee_bps > MAX_PLATFORM_FEE_BPS ==> r == Err::<GlobalState, LaunchpadError>(
            LaunchpadError::InvalidFeeBasisPoints,
        ),
        platform_fee_bps <= MAX_PLATFORM_FEE_BPS ==> r == Ok::<GlobalState, LaunchpadError>(
            spec_initial_global_state(*authority, *fee_vault, platform_fee_bps, bump),
        ),
{
    if platform_fee_bps > MAX_PLATFORM_FEE_BPS {
        return Err(LaunchpadError::InvalidFeeBasisPoints);
    }
    Ok(
        GlobalState {
            authority: *authority,
            platform_fee_bps,
            fee_vault: *fee_vault,
            paused: false,
            upgrade_authority: *authority,
            bump,
        },
    )
}

/// Decides a withdrawal of fees from a vault that holds `fee_vault_amount`.
///
/// The whole balance is withdrawn; an empty vault gives nothing to move.
pub fn withdraw_fees(fee_vault_amount: u64) -> (r: Option<u64>)
    ensures
        fee_vault_amount == 0 ==> r == None::<u64>,
        fee_vault_amount > 0 ==> r == Some(fee_vault_amount),
{
    if fee_vault_amount == 0 {
        return None;
    }
    Some(fee_vault_amount)
}

} // verus!
