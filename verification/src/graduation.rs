//! Graduation: the one-way move of a campaign from its curve to a liquidity
//! pool, and the split of what the campaign holds.
//!
//! `graduate_launchpad` decides the whole move before it changes the campaign:
//! it checks the state, the criteria and the caller, and sets aside the
//! liquidity for the pool. The caller then creates the pool and adds the
//! liquidity, in that order.
//!
//! How many tokens of the pool the liquidity yields is for the venue to say.
//! `distribute_lp_tokens` splits whatever quantity it is handed, and
//! `estimate_lp_tokens` offers an estimate for a caller whose venue returns
//! none; an estimate that cannot be computed fails nothing but itself. The
//! shares are amounts only. Whether the venue mints them to the three
//! receivers or to the campaign, which then passes them on, is for the caller
//! and the venue to settle; nothing here assumes either.

use vstd::prelude::*;
use crate::error::{ErrorKind, LaunchpadError};
use crate::lifecycle::{check_graduation_criteria, spec_graduation_criteria_met};
use crate::state::{BondingCurveState, GlobalState, LaunchpadState, LaunchpadStatus, Pubkey};

verus! {

/// Share of the payment reserves that seeds the pool, in percent.
pub const LIQUIDITY_SOL_PERCENT: u64 = 80;

/// Share of the tokens minted up front that seeds the pool, in percent.
pub const LIQUIDITY_TOKEN_PERCENT: u64 = 60;

/// The creator's share of the pool's tokens, in percent.
pub const CREATOR_LP_PERCENT: u64 = 70;

/// The platform's share of the pool's tokens, in percent.
pub const PLATFORM_LP_PERCENT: u64 = 20;

/// The share of the pool's tokens that stays with the campaign, in percent.
pub const DAO_LP_PERCENT: u64 = 10;

/// The scale of the pool's tokens, and of the recorded price in the estimate
/// of their number.
pub const LP_TOKEN_SCALE: u64 = 1000000000;

/// What a campaign puts into its pool.
#[derive(Clone, Copy, Debug, PartialEq, Eq)]
pub struct LiquidityParams {
    /// Payment that goes into the pool.
    pub sol_amount: u64,
    /// Tokens that go into the pool.
    pub token_amount: u64,
}

/// The split of the pool's tokens.
#[derive(Clone, Copy, Debug, PartialEq, Eq)]
pub struct LpDistribution {
    /// The creator's share.
    pub creator_share: u64,
    /// The platform's share.
    pub platform_share: u64,
    /// What stays with the campaign.
    pub dao_share: u64,
}

/// The record of a graduation, for those who follow the platform.
#[derive(Clone, Copy, Debug, PartialEq, Eq)]
pub struct LaunchpadGraduatedEvent {
    /// The campaign.
    pub launchpad: Pubkey,
    /// The campaign's token.
    pub mint: Pubkey,
    /// The campaign's creator.
    pub creator: Pubkey,
    /// Payment reserves at graduation.
    pub sol_collected: u64,
    /// Supply sold at graduation.
    pub tokens_sold: u64,
    /// Unix time of graduation.
    pub graduation_time: i64,
    /// The pool.
    pub meteora_pool: Option<Pubkey>,
}

/// All that a graduation settles.
#[derive(Clone, Copy, Debug, PartialEq, Eq)]
pub struct GraduationOutcome {
    /// What goes into the pool.
    pub liquidity: LiquidityParams,
    /// What the payment vault holds once the liquidity has left it.
    pub sol_vault_remaining: u64,
    /// The record of the graduation.
    pub event: LaunchpadGraduatedEvent,
}

/// `percent` hundredths of `amount`, rounded down, where `amount * percent`
/// fits in 64 bits.
pub open spec fn spec_percent_of(amount: u64, percent: u64) -> Result<u64, LaunchpadError> {
    if amount * percent > u64::MAX {
        Err(LaunchpadError::ArithmeticOverflow)
    } else {
        Ok(((amount * percent) / 100) as u64)
    }
}

/// An estimate of the pool's tokens: the payment that goes in plus the value
/// of the tokens that go in at `price` per `LP_TOKEN_SCALE` tokens, scaled by
/// `LP_TOKEN_SCALE`.
pub open spec fn spec_lp_estimate(sol_amount: u64, token_amount: u64, price: u64) -> Result<
    u64,
    LaunchpadError,
> {
    if token_amount * price > u64::MAX || (sol_amount + (token_amount * price) / (
    LP_TOKEN_SCALE as int)) * LP_TOKEN_SCALE > u64::MAX {
        Err(LaunchpadError::ArithmeticOverflow)
    } else {
        Ok(
            ((sol_amount + (token_amount * price) / (LP_TOKEN_SCALE as int))
                * LP_TOKEN_SCALE) as u64,
        )
    }
}

/// The liquidity that a ledger and `available_tokens` tokens minted up front
/// give: 80 percent of the reserves and 60 percent of the tokens, each rounded
/// down, where `sol_reserves * 80` and `available_tokens * 60` fit in 64 bits.
pub open spec fn spec_prepare_liquidity(curve: BondingCurveState, available_tokens: u64) -> Result<
    LiquidityParams,
    LaunchpadError,
> {
    if curve.sol_reserves * LIQUIDITY_SOL_PERCENT > u64::MAX || available_tokens
        * LIQUIDITY_TOKEN_PERCENT > u64::MAX {
        Err(LaunchpadError::ArithmeticOverflow)
    } else {
        Ok(
            LiquidityParams {
                sol_amount: ((curve.sol_reserves * LIQUIDITY_SOL_PERCENT) / 100) as u64,
                token_amount: ((available_tokens * LIQUIDITY_TOKEN_PERCENT) / 100) as u64,
            },
        )
    }
}

/// The split of `lp_tokens` pool tokens: 70, 20 and 10 percent, each rounded
/// down.
pub open spec fn spec_distribute_lp_tokens(lp_tokens: u64) -> Result<
    LpDistribution,
    LaunchpadError,
> {
    if lp_tokens * CREATOR_LP_PERCENT > u64::MAX {
        Err(LaunchpadError::ArithmeticOverflow)
    } else {
        Ok(
            LpDistribution {
                creator_share: ((lp_tokens * CREATOR_LP_PERCENT) / 100) as u64,
                platform_share: ((lp_tokens * PLATFORM_LP_PERCENT) / 100) as u64,
                dao_share: ((lp_tokens * DAO_LP_PERCENT) / 100) as u64,
            },
        )
    }
}

/// The decision on a graduation.
///
/// In order: the campaign must be active; the ledger must meet the campaign's
/// criteria at `current_time`; the caller must be the creator or the
/// platform's authority; both shares of the liquidity must fit in 64 bits; the
/// payment vault must hold the payment that goes into the pool.
pub open spec fn spec_graduate(
    global_state: GlobalState,
    launchpad: LaunchpadState,
    curve: BondingCurveState,
    authority: Pubkey,
    lb_pair: Pubkey,
    token_vault_amount: u64,
    sol_vault_lamports: u64,
    current_time: i64,
) -> Result<GraduationOutcome, LaunchpadError> {
    if launchpad.status != LaunchpadStatus::Active {
        Err(LaunchpadError::LaunchpadNotActive)
    } else if !spec_graduation_criteria_met(curve, launchpad.graduation_criteria, current_time) {
        Err(LaunchpadError::GraduationCriteriaNotMet)
    } else if authority != launchpad.creator && authority != global_state.authority {
        Err(LaunchpadError::Unauthorized)
    } else {
        match spec_prepare_liquidity(curve, token_vault_amount) {
            Err(e) => Err(e),
            Ok(liquidity) => if sol_vault_lamports < liquidity.sol_amount {
                Err(LaunchpadError::ArithmeticUnderflow)
            } else {
                Ok(
                    GraduationOutcome {
                        liquidity,
                        sol_vault_remaining: (sol_vault_lamports - liquidity.sol_amount) as u64,
                        event: LaunchpadGraduatedEvent {
                            launchpad: curve.launchpad,
                            mint: launchpad.mint,
                            creator: launchpad.creator,
                            sol_collected: curve.sol_reserves,
                            tokens_sold: curve.supply_sold,
                            graduation_time: current_time,
                            meteora_pool: Some(lb_pair),
                        },
                    },
                )
            },
        }
    }
}

/// The campaign after it has graduated into the pool `lb_pair` at
/// `current_time`.
pub open spec fn spec_graduated(launchpad: LaunchpadState, lb_pair: Pubkey, current_time: i64)
    -> LaunchpadState {
    LaunchpadState {
        status: LaunchpadStatus::Graduated,
        graduated_at: Some(current_time),
        meteora_pool: Some(lb_pair),
        ..launchpad
    }
}

/// Computes `percent` hundredths of `amount`, rounded down.
fn percent_of(amount: u64, percent: u64) -> (r: Result<u64, LaunchpadError>)
    ensures
        r == spec_percent_of(amount, percent),
{
    match amount.checked_mul(percent) {
        Some(scaled) => Ok(scaled / 100),
        None => Err(LaunchpadError::ArithmeticOverflow),
    }
}

/// Sets aside the liquidity for the pool.
///
/// 80 percent of the ledger's reserves and 60 percent of `available_tokens`,
/// the tokens minted up front that the campaign still holds, go into the pool,
/// each rounded down; the rest of the tokens stays for later. It succeeds
/// whenever `sol_reserves * 80` and `available_tokens * 60` fit in 64 bits,
/// and fails with `ArithmeticOverflow` exactly when one of them does not.
pub fn prepare_liquidity(bonding_curve: &BondingCurveState, available_tokens: u64) -> (r: Result<
    LiquidityParams,
    LaunchpadError,
>)
    ensures
        r == spec_prepare_liquidity(*bonding_curve, available_tokens),
        r is Ok <==> bonding_curve.sol_reserves * 80 <= u64::MAX && available_tokens * 60
            <= u64::MAX,
        r matches Ok(liquidity) ==> {
            &&& liquidity.sol_amount == (bonding_curve.sol_reserves * 80) / 100
            &&& liquidity.token_amount == (available_tokens * 60) / 100
            &&& liquidity.sol_amount <= bonding_curve.sol_reserves
            &&& liquidity.token_amount <= available_tokens
        },
{
    let sol_for_liquidity = match percent_of(bonding_curve.sol_reserves, LIQUIDITY_SOL_PERCENT) {
        Ok(share) => share,
        Err(e) => {
            return Err(e);
        },
    };
    let tokens_for_liquidity = match percent_of(available_tokens, LIQUIDITY_TOKEN_PERCENT) {
        Ok(share) => share,
        Err(e) => {
            return Err(e);
        },
    };
    Ok(LiquidityParams { sol_amount: sol_for_liquidity, token_amount: tokens_for_liquidity })
}

/// Estimates the pool's tokens that the liquidity yields at `price`, the
/// price per `10^9` tokens: the payment amount plus
/// `token_amount * price / 10^9`, times `10^9`.
///
/// This is an estimate for a caller whose venue returns no quantity. It fails
/// with `ArithmeticOverflow` exactly when the value of the tokens or the
/// estimate exceeds 64 bits, and its failure fails nothing else.
pub fn estimate_lp_tokens(liquidity: &LiquidityParams, price: u64) -> (r: Result<
    u64,
    LaunchpadError,
>)
    ensures
        r == spec_lp_estimate(liquidity.sol_amount, liquidity.token_amount, price),
{
    let token_value = match liquidity.token_amount.checked_mul(price) {
        Some(value) => value / LP_TOKEN_SCALE,
        None => {
            return Err(LaunchpadError::ArithmeticOverflow);
        },
    };
    proof {
        let total = liquidity.sol_amount + token_value;
        assert(total > u64::MAX ==> total * LP_TOKEN_SCALE > u64::MAX) by (nonlinear_arith)
            requires
                LP_TOKEN_SCALE == 1000000000,
        ;
    }
    let pooled_value = match liquidity.sol_amount.checked_add(token_value) {
        Some(sum) => sum,
        None => {
            return Err(LaunchpadError::ArithmeticOverflow);
        },
    };
    match pooled_value.checked_mul(LP_TOKEN_SCALE) {
        Some(estimate) => Ok(estimate),
        None => Err(LaunchpadError::ArithmeticOverflow),
    }
}

/// Splits `lp_tokens` tokens of the pool: 70 percent to the creator, 20
/// percent to the platform, 10 percent that stay with the campaign, each
/// rounded down.
///
/// The three shares never add up to more than the whole. It fails with
/// `ArithmeticOverflow` exactly when `lp_tokens * 70` exceeds 64 bits.
pub fn distribute_lp_tokens(lp_tokens: u64) -> (r: Result<LpDistribution, LaunchpadError>)
    ensures
        r == spec_distribute_lp_tokens(lp_tokens),
        r matches Ok(shares) ==> shares.creator_share + shares.platform_share + shares.dao_share
            <= lp_tokens,
{
    let creator_share = match percent_of(lp_tokens, CREATOR_LP_PERCENT) {
        Ok(share) => share,
        Err(e) => {
            return Err(e);
        },
    };
    let platform_share = match percent_of(lp_tokens, PLATFORM_LP_PERCENT) {
        Ok(share) => share,
        Err(e) => {
            return Err(e);
        },
    };
    let dao_share = match percent_of(lp_tokens, DAO_LP_PERCENT) {
        Ok(share) => share,
        Err(e) => {
            return Err(e);
        },
    };
    Ok(LpDistribution { creator_share, platform_share, dao_share })
}

/// Graduates a campaign.
///
/// `authority` is the caller, `lb_pair` the pool to be, `token_vault_amount`
/// the tokens minted up front that the campaign holds, `sol_vault_lamports`
/// what its payment vault holds, and `current_time` the time.
///
/// It fails with `LaunchpadNotActive` unless the campaign is active, then with
/// `GraduationCriteriaNotMet` unless the ledger meets the campaign's criteria,
/// then with `Unauthorized` unless the caller is the creator or the platform's
/// authority, then as `prepare_liquidity` does, then with
/// `ArithmeticUnderflow` where the vault holds less than the payment for the
/// pool. With all of that in order it succeeds. On failure the campaign is
/// unchanged. On success the campaign is graduated for good, with the time
/// and the pool recorded and all else as it was, and the outcome says what to
/// move: 80 percent of the reserves and 60 percent of the tokens.
pub fn graduate_launchpad(
    global_state: &GlobalState,
    launchpad: &mut LaunchpadState,
    bonding_curve: &BondingCurveState,
    authority: &Pubkey,
    lb_pair: &Pubkey,
    token_vault_amount: u64,
    sol_vault_lamports: u64,
    current_time: i64,
) -> (r: Result<GraduationOutcome, LaunchpadError>)
    ensures
        r == spec_graduate(
            *global_state,
            *old(launchpad),
            *bonding_curve,
            *authority,
            *lb_pair,
            token_vault_amount,
            sol_vault_lamports,
            current_time,
        ),
        r is Err ==> *final(launchpad) == *old(launchpad),
        r is Ok ==> *final(launchpad) == spec_graduated(*old(launchpad), *lb_pair, current_time),
        r is Ok ==> old(launchpad).status == LaunchpadStatus::Active && final(launchpad).status
            == LaunchpadStatus::Graduated,
        r is Ok <==> {
            &&& old(launchpad).status == LaunchpadStatus::Active
            &&& spec_graduation_criteria_met(
                *bonding_curve,
                old(launchpad).graduation_criteria,
                current_time,
            )
            &&& (*authority == old(launchpad).creator || *authority == global_state.authority)
            &&& bonding_curve.sol_reserves * 80 <= u64::MAX
            &&& token_vault_amount * 60 <= u64::MAX
            &&& (bonding_curve.sol_reserves * 80) / 100 <= sol_vault_lamports
        },
        r matches Ok(outcome) ==> {
            &&& outcome.liquidity.sol_amount == (bonding_curve.sol_reserves * 80) / 100
            &&& outcome.liquidity.token_amount == (token_vault_amount * 60) / 100
            &&& outcome.liquidity.sol_amount + outcome.sol_vault_remaining == sol_vault_lamports
            &&& outcome.liquidity.sol_amount <= bonding_curve.sol_reserves
            &&& outcome.liquidity.token_amount <= token_vault_amount
        },
{
    match launchpad.status {
        LaunchpadStatus::Active => {},
        _ => {
            return Err(LaunchpadError::LaunchpadNotActive);
        },
    }
    if !check_graduation_criteria(bonding_curve, &launchpad.graduation_criteria, current_time) {
        return Err(LaunchpadError::GraduationCriteriaNotMet);
    }
    if *authority != launchpad.creator && *authority != global_state.authority {
        return Err(LaunchpadError::Unauthorized);
    }
    let liquidity = match prepare_liquidity(bonding_curve, token_vault_amount) {
        Ok(liquidity) => liquidity,
        Err(e) => {
            return Err(e);
        },
    };
    let sol_vault_remaining = match sol_vault_lamports.checked_sub(liquidity.sol_amount) {
        Some(rest) => rest,
        None => {
            return Err(LaunchpadError::ArithmeticUnderflow);
        },
    };
    launchpad.status = LaunchpadStatus::Graduated;
    launchpad.graduated_at = Some(current_time);
    launchpad.meteora_pool = Some(*lb_pair);
    Ok(
        GraduationOutcome {
            liquidity,
            sol_vault_remaining,
            event: LaunchpadGraduatedEvent {
                launchpad: bonding_curve.launchpad,
                mint: launchpad.mint,
                creator: launchpad.creator,
                sol_collected: bonding_curve.sol_reserves,
                tokens_sold: bonding_curve.supply_sold,
                graduation_time: current_time,
                meteora_pool: Some(*lb_pair),
            },
        },
    )
}

/// Graduation is final: a campaign that is not active, a graduated one among
/// them, refuses to graduate, and the refusal is a state error.
pub proof fn lemma_only_active_graduates(
    global_state: GlobalState,
    launchpad: LaunchpadState,
    curve: BondingCurveState,
    authority: Pubkey,
    lb_pair: Pubkey,
    token_vault_amount: u64,
    sol_vault_lamports: u64,
    current_time: i64,
)
    requires
        launchpad.status != LaunchpadStatus::Active,
    ensures
        spec_graduate(
            global_state,
            launchpad,
            curve,
            authority,
            lb_pair,
            token_vault_amount,
            sol_vault_lamports,
            current_time,
        ) matches Err(e) && e.spec_kind() == ErrorKind::State,
{
}

} // verus!
