//! The life of a campaign: `Active` and `Paused` swap on a toggle, and
//! `Graduated` is final.
//!
//! ```text
//!   Active <--toggle--> Paused
//!     |
//!  graduate
//!     v
//!  Graduated
//! ```

use vstd::prelude::*;
use crate::error::{ErrorKind, LaunchpadError};
use crate::state::{
    BondingCurveState, GlobalState, GraduationCriteria, LaunchpadState, LaunchpadStatus,
};
use crate::trade::{spec_quote_buy, spec_quote_sell};

verus! {

/// The status that a pause toggle leads to: `Active` and `Paused` swap, and a
/// graduated campaign refuses.
pub open spec fn spec_toggle_pause(status: LaunchpadStatus) -> Result<
    LaunchpadStatus,
    LaunchpadError,
> {
    match status {
        LaunchpadStatus::Active => Ok(LaunchpadStatus::Paused),
        LaunchpadStatus::Paused => Ok(LaunchpadStatus::Active),
        LaunchpadStatus::Graduated => Err(LaunchpadError::LaunchpadAlreadyGraduated),
    }
}

/// Whether the ledger meets the criteria at the time `current_time`: every
/// threshold that is present holds, and an absent one asks nothing.
pub open spec fn spec_graduation_criteria_met(
    curve_state: BondingCurveState,
    criteria: GraduationCriteria,
    current_time: i64,
) -> bool {
    &&& criteria.min_sol_raised matches Some(min_sol) ==> curve_state.sol_reserves >= min_sol
    &&& criteria.min_supply_sold matches Some(min_supply) ==> curve_state.supply_sold
        >= min_supply
    &&& criteria.time_limit matches Some(time_limit) ==> current_time >= time_limit
}

/// Toggles the pause of a campaign.
///
/// An active campaign becomes paused and a paused one active; nothing else in
/// the record changes. A graduated campaign fails with
/// `LaunchpadAlreadyGraduated` and stays as it is.
pub fn pause_launchpad(launchpad: &mut LaunchpadState) -> (r: Result<(), LaunchpadError>)
    ensures
        match spec_toggle_pause(old(launchpad).status) {
            Ok(status) => r is Ok && *final(launchpad) == (LaunchpadState {
                status,
                ..*old(launchpad)
            }),
            Err(e) => r == Err::<(), LaunchpadError>(e) && *final(launchpad) == *old(launchpad),
        },
{
    match launchpad.status {
        LaunchpadStatus::Active => {
            launchpad.status = LaunchpadStatus::Paused;
        },
        LaunchpadStatus::Paused => {
            launchpad.status = LaunchpadStatus::Active;
        },
        LaunchpadStatus::Graduated => {
            return Err(LaunchpadError::LaunchpadAlreadyGraduated);
        },
    }
    Ok(())
}

/// Evaluates the graduation criteria against the ledger at `current_time`.
///
/// The result is true exactly when the reserves reach `min_sol_raised`, the
/// supply sold reaches `min_supply_sold`, and the time has reached
/// `time_limit`, each only where it is present. `custom_logic` is not
/// evaluated.
pub fn check_graduation_criteria(
    curve_state: &BondingCurveState,
    criteria: &GraduationCriteria,
    current_time: i64,
) -> (met: bool)
    ensures
        met == spec_graduation_criteria_met(*curve_state, *criteria, current_time),
{
    if let Some(min_sol) = criteria.min_sol_raised {
        if curve_state.sol_reserves < min_sol {
            return false;
        }
    }
    if let Some(min_supply) = criteria.min_supply_sold {
        if curve_state.supply_sold < min_supply {
            return false;
        }
    }
    if let Some(time_limit) = criteria.time_limit {
        if current_time < time_limit {
            return false;
        }
    }
    true
}

/// Pausing is reversible: on a campaign that has not graduated, two toggles in
/// a row both succeed and give back the status they started from.
pub proof fn lemma_toggle_twice_is_identity(status: LaunchpadStatus)
    requires
        status != LaunchpadStatus::Graduated,
    ensures
        spec_toggle_pause(status) matches Ok(once) && spec_toggle_pause(once) == Ok::<
            LaunchpadStatus,
            LaunchpadError,
        >(status),
{
}

/// No toggle leads into or out of `Graduated`.
pub proof fn lemma_toggle_never_graduates(status: LaunchpadStatus)
    ensures
        spec_toggle_pause(status) matches Ok(next) ==> next != LaunchpadStatus::Graduated && status
            != LaunchpadStatus::Graduated,
{
}

/// A graduated campaign refuses the pause toggle, and the refusal is a state
/// error.
pub proof fn lemma_graduated_rejects_toggle()
    ensures
        spec_toggle_pause(LaunchpadStatus::Graduated) matches Err(e) && e.spec_kind()
            == ErrorKind::State,
{
}

/// A graduated campaign refuses every buy, whatever the platform, the ledger
/// and the terms, and the refusal is a state error.
pub proof fn lemma_graduated_rejects_buy(
    global_state: GlobalState,
    launchpad: LaunchpadState,
    curve: BondingCurveState,
    amount_sol: u64,
    min_tokens_out: u64,
    max_slippage_bps: u16,
)
    requires
        launchpad.status == LaunchpadStatus::Graduated,
    ensures
        spec_quote_buy(
            global_state,
            launchpad,
            curve,
            amount_sol,
            min_tokens_out,
            max_slippage_bps,
        ) matches Err(e) && e.spec_kind() == ErrorKind::State,
{
}

/// A graduated campaign refuses every sale, whatever the platform, the ledger,
/// the balances and the terms, and the refusal is a state error.
pub proof fn lemma_graduated_rejects_sell(
    global_state: GlobalState,
    launchpad: LaunchpadState,
    curve: BondingCurveState,
    trader_token_balance: u64,
    sol_vault_lamports: u64,
    amount_tokens: u64,
    min_sol_out: u64,
    max_slippage_bps: u16,
)
    requires
        launchpad.status == LaunchpadStatus::Graduated,
    ensures
        spec_quote_sell(
            global_state,
            launchpad,
            curve,
            trader_token_balance,
            sol_vault_lamports,
            amount_tokens,
            min_sol_out,
            max_slippage_bps,
        ) matches Err(e) && e.spec_kind() == ErrorKind::State,
{
}

/// A campaign that is not active, and any campaign on a paused platform,
/// refuses every buy with a state error.
pub proof fn lemma_closed_trading_rejects_buy(
    global_state: GlobalState,
    launchpad: LaunchpadState,
    curve: BondingCurveState,
    amount_sol: u64,
    min_tokens_out: u64,
    max_slippage_bps: u16,
)
    requires
        launchpad.status != LaunchpadStatus::Active || global_state.paused,
    ensures
        spec_quote_buy(
            global_state,
            launchpad,
            curve,
            amount_sol,
            min_tokens_out,
            max_slippage_bps,
        ) matches Err(e) && e.spec_kind() == ErrorKind::State,
{
}

/// A campaign that is not active, and any campaign on a paused platform,
/// refuses every sale with a state error.
pub proof fn lemma_closed_trading_rejects_sell(
    global_state: GlobalState,
    launchpad: LaunchpadState,
    curve: BondingCurveState,
    trader_token_balance: u64,
    sol_vault_lamports: u64,
    amount_tokens: u64,
    min_sol_out: u64,
    max_slippage_bps: u16,
)
    requires
        launchpad.status != LaunchpadStatus::Active || global_state.paused,
    ensures
        spec_quote_sell(
            global_state,
            launchpad,
            curve,
            trader_token_balance,
            sol_vault_lamports,
            amount_tokens,
            min_sol_out,
            max_slippage_bps,
        ) matches Err(e) && e.spec_kind() == ErrorKind::State,
{
}

} // verus!
