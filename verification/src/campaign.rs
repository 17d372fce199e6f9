//! The creation of a campaign: the rules on its parameters, and the two
//! records that a campaign starts with.

use vstd::prelude::*;
use vstd::utf8::encode_utf8;
use crate::error::LaunchpadError;
use crate::state::{
    BondingCurveState, CreateLaunchpadParams, GlobalState, LaunchpadState, LaunchpadStatus, Pubkey,
};

verus! {

/// The longest token name, in bytes.
pub const MAX_NAME_LEN: usize = 32;

/// The longest token symbol, in bytes.
pub const MAX_SYMBOL_LEN: usize = 8;

/// The longest metadata URI, in bytes.
pub const MAX_URI_LEN: usize = 200;

/// The most decimals a token can have.
pub const MAX_DECIMALS: u8 = 9;

/// The highest creator fee, in basis points.
pub const MAX_CREATOR_FEE_BPS: u16 = 500;

/// Why a campaign was not created, or its parameters not accepted.
#[derive(Clone, Copy, Debug, PartialEq, Eq)]
pub enum CreateError {
    /// The platform or the parameters break a rule.
    Rejected(LaunchpadError),
    /// The time was needed and could not be read.
    ClockUnavailable,
}

/// The addresses and bump seeds of a campaign's accounts.
#[derive(Clone, Copy, Debug, PartialEq, Eq)]
pub struct CampaignAccounts {
    /// The campaign's record.
    pub launchpad: Pubkey,
    /// The campaign's token.
    pub mint: Pubkey,
    /// The campaign's creator.
    pub creator: Pubkey,
    /// Vault for the payments.
    pub sol_vault: Pubkey,
    /// Vault for the tokens minted up front.
    pub token_vault: Pubkey,
    /// The campaign's ledger.
    pub bonding_curve: Pubkey,
    /// Bump seed of the campaign's record.
    pub launchpad_bump: u8,
    /// Bump seed of the ledger.
    pub bonding_curve_bump: u8,
}

/// The length of a string in bytes, as the machine counts it.
pub open spec fn spec_byte_len(s: Seq<char>) -> usize {
    encode_utf8(s).len() as usize
}

/// The rules that do not depend on the time, in the order in which they are
/// checked: name, symbol and URI within their lengths, decimals within their
/// bound, a positive amount minted up front, the creator's fee within its
/// bound, a positive cap and a positive base price.
pub open spec fn spec_validate_timeless(params: CreateLaunchpadParams) -> Result<
    (),
    LaunchpadError,
> {
    if spec_byte_len(params.name@) > MAX_NAME_LEN {
        Err(LaunchpadError::TokenNameTooLong)
    } else if spec_byte_len(params.symbol@) > MAX_SYMBOL_LEN {
        Err(LaunchpadError::TokenSymbolTooLong)
    } else if spec_byte_len(params.uri@) > MAX_URI_LEN {
        Err(LaunchpadError::MetadataUriTooLong)
    } else if params.decimals > MAX_DECIMALS {
        Err(LaunchpadError::InvalidDecimals)
    } else if params.total_supply == 0 {
        Err(LaunchpadError::InvalidTotalSupply)
    } else if params.creator_fee_bps > MAX_CREATOR_FEE_BPS {
        Err(LaunchpadError::InvalidCreatorFee)
    } else if params.curve_params.max_supply == 0 || params.curve_params.base_price == 0 {
        Err(LaunchpadError::InvalidCurveParams)
    } else {
        Ok(())
    }
}

/// All the rules at the time `current_time`: the timeless ones, and then a
/// time limit, where one is set, strictly in the future.
pub open spec fn spec_validate_create_params_at(params: CreateLaunchpadParams, current_time: i64)
    -> Result<(), LaunchpadError> {
    if spec_validate_timeless(params) is Err {
        spec_validate_timeless(params)
    } else if params.graduation_criteria.time_limit matches Some(time_limit) && time_limit
        <= current_time {
        Err(LaunchpadError::InvalidTimeLimit)
    } else {
        Ok(())
    }
}

/// All the rules, given what reading the time gave: `None` where it could not
/// be read. The time is asked for only where a time limit is set and the
/// timeless rules hold.
pub open spec fn spec_validate_with_clock(params: CreateLaunchpadParams, clock: Option<i64>)
    -> Result<(), CreateError> {
    match spec_validate_timeless(params) {
        Err(e) => Err(CreateError::Rejected(e)),
        Ok(()) => if params.graduation_criteria.time_limit is None {
            Ok(())
        } else {
            match clock {
                None => Err(CreateError::ClockUnavailable),
                Some(current_time) => match spec_validate_create_params_at(params, current_time) {
                    Ok(()) => Ok(()),
                    Err(e) => Err(CreateError::Rejected(e)),
                },
            }
        },
    }
}

/// The campaign that creation makes: active, with the creator's fee, the
/// amount minted up front and the criteria of the parameters, created at
/// `current_time`, with no pool yet.
pub open spec fn spec_new_launchpad(
    accounts: CampaignAccounts,
    params: CreateLaunchpadParams,
    current_time: i64,
) -> LaunchpadState {
    LaunchpadState {
        mint: accounts.mint,
        creator: accounts.creator,
        sol_vault: accounts.sol_vault,
        token_vault: accounts.token_vault,
        bonding_curve: accounts.bonding_curve,
        status: LaunchpadStatus::Active,
        creator_fee_bps: params.creator_fee_bps,
        total_supply: params.total_supply,
        graduation_criteria: params.graduation_criteria,
        meteora_pool: None,
        created_at: current_time,
        graduated_at: None,
        bump: accounts.launchpad_bump,
    }
}

/// The ledger that creation makes: the curve of the parameters, every counter
/// at zero, and the base price recorded.
pub open spec fn spec_new_bonding_curve(accounts: CampaignAccounts, params: CreateLaunchpadParams)
    -> BondingCurveState {
    BondingCurveState {
        launchpad: accounts.launchpad,
        curve_type: params.curve_type,
        curve_params: params.curve_params,
        supply_sold: 0,
        sol_reserves: 0,
        virtual_sol_reserves: 0,
        virtual_token_reserves: 0,
        fee_collected: 0,
        last_price: params.curve_params.base_price,
        bump: accounts.bonding_curve_bump,
    }
}

/// The decision on the creation of a campaign at the time `current_time`:
/// the platform must not be paused and the parameters must keep every rule.
pub open spec fn spec_create_launchpad_at(
    global_state: GlobalState,
    accounts: CampaignAccounts,
    params: CreateLaunchpadParams,
    current_time: i64,
) -> Result<(LaunchpadState, BondingCurveState), LaunchpadError> {
    if global_state.paused {
        Err(LaunchpadError::PlatformPaused)
    } else {
        match spec_validate_create_params_at(params, current_time) {
            Err(e) => Err(e),
            Ok(()) => Ok(
                (
                    spec_new_launchpad(accounts, params, current_time),
                    spec_new_bonding_curve(accounts, params),
                ),
            ),
        }
    }
}

/// What the platform and the rules that do not depend on the time say of a
/// creation, before the time is looked at.
pub open spec fn spec_create_timeless(global_state: GlobalState, params: CreateLaunchpadParams)
    -> Result<(), LaunchpadError> {
    if global_state.paused {
        Err(LaunchpadError::PlatformPaused)
    } else {
        spec_validate_timeless(params)
    }
}

/// The decision on the creation of a campaign, given what reading the time
/// gave: `None` where it could not be read. A paused platform and a broken
/// timeless rule are reported before a missing time; a campaign is never
/// created without the time, which it records.
pub open spec fn spec_create_launchpad(
    global_state: GlobalState,
    accounts: CampaignAccounts,
    params: CreateLaunchpadParams,
    clock: Option<i64>,
) -> Result<(LaunchpadState, BondingCurveState), CreateError> {
    match spec_create_timeless(global_state, params) {
        Err(e) => Err(CreateError::Rejected(e)),
        Ok(()) => match clock {
            None => Err(CreateError::ClockUnavailable),
            Some(current_time) => match spec_create_launchpad_at(
                global_state,
                accounts,
                params,
                current_time,
            ) {
                Ok(records) => Ok(records),
                Err(e) => Err(CreateError::Rejected(e)),
            },
        },
    }
}

/// Reads the time from `Clock::get` of the Solana runtime, as seconds since
/// the Unix epoch, and gives `None` where the runtime does not provide the
/// clock. Nothing is claimed of the value: it is whatever the runtime says.
#[verifier::external_body]
fn clock_unix_timestamp() -> (now: Option<i64>) {
    match <anchor_lang::prelude::Clock as anchor_lang::prelude::SolanaSysvar>::get() {
        Ok(clock) => Some(clock.unix_timestamp),
        Err(_) => None,
    }
}

/// Checks the rules that do not depend on the time.
fn validate_timeless(params: &CreateLaunchpadParams) -> (r: Result<(), LaunchpadError>)
    ensures
        r == spec_validate_timeless(*params),
{
    if params.name.as_str().len() > MAX_NAME_LEN {
        return Err(LaunchpadError::TokenNameTooLong);
    }
    if params.symbol.as_str().len() > MAX_SYMBOL_LEN {
        return Err(LaunchpadError::TokenSymbolTooLong);
    }
    if params.uri.as_str().len() > MAX_URI_LEN {
        return Err(LaunchpadError::MetadataUriTooLong);
    }
    if params.decimals > MAX_DECIMALS {
        return Err(LaunchpadError::InvalidDecimals);
    }
    if params.total_supply == 0 {
        return Err(LaunchpadError::InvalidTotalSupply);
    }
    if params.creator_fee_bps > MAX_CREATOR_FEE_BPS {
        return Err(LaunchpadError::InvalidCreatorFee);
    }
    if params.curve_params.max_supply == 0 || params.curve_params.base_price == 0 {
        return Err(LaunchpadError::InvalidCurveParams);
    }
    Ok(())
}

/// Checks the parameters of a campaign at the time `current_time`.
///
/// It fails with the first rule that is broken, in this order:
/// `TokenNameTooLong` (over 32 bytes), `TokenSymbolTooLong` (over 8 bytes),
/// `MetadataUriTooLong` (over 200 bytes), `InvalidDecimals` (over 9),
/// `InvalidTotalSupply` (an amount minted up front of zero),
/// `InvalidCreatorFee` (over 500 basis points), `InvalidCurveParams` (a cap or
/// a base price of zero), `InvalidTimeLimit` (a time limit that is not after
/// `current_time`).
pub fn validate_create_params_at(params: &CreateLaunchpadParams, current_time: i64) -> (r: Result<
    (),
    LaunchpadError,
>)
    ensures
        r == spec_validate_create_params_at(*params, current_time),
        r is Ok ==> params.curve_params.wf() && params.creator_fee_bps <= MAX_CREATOR_FEE_BPS
            && params.total_supply > 0,
{
    match validate_timeless(params) {
        Ok(()) => {},
        Err(e) => {
            return Err(e);
        },
    }
    if let Some(time_limit) = params.graduation_criteria.time_limit {
        if time_limit <= current_time {
            return Err(LaunchpadError::InvalidTimeLimit);
        }
    }
    Ok(())
}

/// Checks the parameters of a campaign, given what reading the time gave.
///
/// `clock` is the time, or `None` where it could not be read. It counts only
/// where a time limit is set and every other rule holds: there a missing time
/// fails with `ClockUnavailable`. All else is as in
/// `validate_create_params_at`.
pub fn validate_create_params_with_clock(params: &CreateLaunchpadParams, clock: Option<i64>) -> (r:
    Result<(), CreateError>)
    ensures
        r == spec_validate_with_clock(*params, clock),
{
    match validate_timeless(params) {
        Ok(()) => {},
        Err(e) => {
            return Err(CreateError::Rejected(e));
        },
    }
    if params.graduation_criteria.time_limit.is_none() {
        return Ok(());
    }
    match clock {
        None => Err(CreateError::ClockUnavailable),
        Some(current_time) => match validate_create_params_at(params, current_time) {
            Ok(()) => Ok(()),
            Err(e) => Err(CreateError::Rejected(e)),
        },
    }
}

/// Checks the parameters of a campaign against the time of the runtime.
///
/// The rules that do not depend on the time decide alone where one of them is
/// broken or no time limit is set; the time is not read then. Otherwise the
/// time is read once and the result is that of
/// `validate_create_params_with_clock` for what was read.
pub fn validate_create_params(params: &CreateLaunchpadParams) -> (r: Result<(), CreateError>)
    ensures
        spec_validate_timeless(*params) matches Err(e) ==> r == Err::<(), CreateError>(
            CreateError::Rejected(e),
        ),
        spec_validate_timeless(*params) is Ok && params.graduation_criteria.time_limit is None
            ==> r == Ok::<(), CreateError>(()),
        exists|clock: Option<i64>| r == spec_validate_with_clock(*params, clock),
{
    match validate_timeless(params) {
        Ok(()) => {},
        Err(e) => {
            assert(spec_validate_with_clock(*params, None) == Err::<(), CreateError>(
                CreateError::Rejected(e),
            ));
            return Err(CreateError::Rejected(e));
        },
    }
    if params.graduation_criteria.time_limit.is_none() {
        assert(spec_validate_with_clock(*params, None) == Ok::<(), CreateError>(()));
        return Ok(());
    }
    let clock = clock_unix_timestamp();
    validate_create_params_with_clock(params, clock)
}

/// Creates a campaign and its ledger at the time `current_time`.
///
/// It fails with `PlatformPaused` on a paused platform, and otherwise as
/// `validate_create_params_at` does. On success the campaign is active, holds
/// the creator's fee, the amount minted up front and the criteria of the
/// parameters, records `current_time` as its creation and has no pool; the
/// ledger holds the curve of the parameters, has every counter at zero and
/// records the base price.
pub fn create_launchpad_at(
    global_state: &GlobalState,
    accounts: &CampaignAccounts,
    params: &CreateLaunchpadParams,
    current_time: i64,
) -> (r: Result<(LaunchpadState, BondingCurveState), LaunchpadError>)
    ensures
        r == spec_create_launchpad_at(*global_state, *accounts, *params, current_time),
        r matches Ok((launchpad, bonding_curve)) ==> {
            &&& launchpad.status == LaunchpadStatus::Active
            &&& launchpad.creator_fee_bps <= MAX_CREATOR_FEE_BPS
            &&& launchpad.total_supply > 0
            &&& launchpad.created_at == current_time
            &&& bonding_curve.wf()
            &&& bonding_curve.curve_params.wf()
            &&& bonding_curve.supply_sold == 0
            &&& bonding_curve.sol_reserves == 0
            &&& bonding_curve.fee_collected == 0
        },
{
    if global_state.paused {
        return Err(LaunchpadError::PlatformPaused);
    }
    match validate_create_params_at(params, current_time) {
        Ok(()) => {},
        Err(e) => {
            return Err(e);
        },
    }
    let launchpad = LaunchpadState {
        mint: accounts.mint,
        creator: accounts.creator,
        sol_vault: accounts.sol_vault,
        token_vault: accounts.token_vault,
        bonding_curve: accounts.bonding_curve,
        status: LaunchpadStatus::Active,
        creator_fee_bps: params.creator_fee_bps,
        total_supply: params.total_supply,
        graduation_criteria: params.graduation_criteria,
        meteora_pool: None,
        created_at: current_time,
        graduated_at: None,
        bump: accounts.launchpad_bump,
    };
    let bonding_curve = BondingCurveState {
        launchpad: accounts.launchpad,
        curve_type: params.curve_type,
        curve_params: params.curve_params,
        supply_sold: 0,
        sol_reserves: 0,
        virtual_sol_reserves: 0,
        virtual_token_reserves: 0,
        fee_collected: 0,
        last_price: params.curve_params.base_price,
        bump: accounts.bonding_curve_bump,
    };
    Ok((launchpad, bonding_curve))
}

/// Decides what the platform and the timeless rules say of a creation.
fn create_timeless(global_state: &GlobalState, params: &CreateLaunchpadParams) -> (r: Result<
    (),
    LaunchpadError,
>)
    ensures
        r == spec_create_timeless(*global_state, *params),
{
    if global_state.paused {
        return Err(LaunchpadError::PlatformPaused);
    }
    validate_timeless(params)
}

/// Creates a campaign and its ledger, given what reading the time gave.
///
/// `clock` is the time, or `None` where it could not be read. A paused
/// platform fails with `PlatformPaused` and a broken timeless rule with its
/// error, whatever the clock; then a missing time fails with
/// `ClockUnavailable`; then all is as in `create_launchpad_at`.
pub fn create_launchpad_with_clock(
    global_state: &GlobalState,
    accounts: &CampaignAccounts,
    params: &CreateLaunchpadParams,
    clock: Option<i64>,
) -> (r: Result<(LaunchpadState, BondingCurveState), CreateError>)
    ensures
        r == spec_create_launchpad(*global_state, *accounts, *params, clock),
{
    match create_timeless(global_state, params) {
        Ok(()) => {},
        Err(e) => {
            return Err(CreateError::Rejected(e));
        },
    }
    match clock {
        None => Err(CreateError::ClockUnavailable),
        Some(current_time) => match create_launchpad_at(
            global_state,
            accounts,
            params,
            current_time,
        ) {
            Ok(records) => Ok(records),
            Err(e) => Err(CreateError::Rejected(e)),
        },
    }
}

/// Creates a campaign and its ledger at the time of the runtime.
///
/// The platform and the rules that do not depend on the time are decided
/// first, and the time is not read where one of them refuses. Otherwise the
/// time is read once and the result is that of `create_launchpad_with_clock`
/// for what was read.
pub fn create_launchpad(
    global_state: &GlobalState,
    accounts: &CampaignAccounts,
    params: &CreateLaunchpadParams,
) -> (r: Result<(LaunchpadState, BondingCurveState), CreateError>)
    ensures
        spec_create_timeless(*global_state, *params) matches Err(e) ==> r == Err::<
            (LaunchpadState, BondingCurveState),
            CreateError,
        >(CreateError::Rejected(e)),
        exists|clock: Option<i64>|
            r == spec_create_launchpad(*global_state, *accounts, *params, clock),
{
    match create_timeless(global_state, params) {
        Ok(()) => {},
        Err(e) => {
            assert(spec_create_launchpad(*global_state, *accounts, *params, None) == Err::<
                (LaunchpadState, BondingCurveState),
                CreateError,
            >(CreateError::Rejected(e)));
            return Err(CreateError::Rejected(e));
        },
    }
    let clock = clock_unix_timestamp();
    create_launchpad_with_clock(global_state, accounts, params, clock)
}

} // verus!
