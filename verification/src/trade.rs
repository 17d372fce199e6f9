//! Buying from and selling to the bonding curve.
//!
//! A trade is decided in full before anything changes: every check runs on the
//! ledger as it stands, and only a trade that passes them all touches the
//! ledger. A failed trade leaves the ledger as it was.
//!
//! `quote_buy` and `quote_sell` decide a trade without applying it, so that a
//! caller can move the value first and commit the ledger afterwards with
//! `buy_on_curve` or `sell_to_curve`, which come to the same decision on the
//! same ledger.

use vstd::prelude::*;
use crate::curve::{
    calculate_current_price, calculate_sol_for_token_amount, calculate_tokens_for_sol_amount,
    spec_current_price, spec_sol_for_token_amount, spec_tokens_for_sol_amount,
};
use crate::error::LaunchpadError;
use crate::exponential::lemma_exponential_price_starts_at_base;
use crate::fees::{
    calculate_fee, lemma_fee_at_most_amount, spec_calculate_fee, spec_validate_slippage,
    validate_slippage,
};
use crate::linear::{
    lemma_linear_cost_terms_nonnegative, lemma_linear_tokens_is_inverse, spec_linear_tokens,
};
use crate::state::{BondingCurveState, CurveType, GlobalState, LaunchpadState, LaunchpadStatus};

verus! {

/// What a buy settles.
#[derive(Clone, Copy, Debug, PartialEq, Eq)]
pub struct BuyReceipt {
    /// Tokens to mint to the buyer.
    pub tokens_minted: u64,
    /// Payment that goes to the vault: the amount paid less both fees.
    pub net_sol_amount: u64,
    /// The platform's fee on the amount paid.
    pub platform_fee: u64,
    /// The creator's fee on the amount paid.
    pub creator_fee: u64,
    /// Supply sold once the buy is applied.
    pub new_supply: u64,
    /// Price at the new supply.
    pub new_price: u64,
}

/// What a sale settles.
#[derive(Clone, Copy, Debug, PartialEq, Eq)]
pub struct SellReceipt {
    /// Tokens to burn from the seller.
    pub tokens_burned: u64,
    /// What the curve returns for the tokens, before fees.
    pub sol_return_gross: u64,
    /// What the vault pays the seller: the gross return less both fees.
    pub sol_return_net: u64,
    /// The platform's fee on the gross return.
    pub platform_fee: u64,
    /// The creator's fee on the gross return.
    pub creator_fee: u64,
    /// Supply sold once the sale is applied.
    pub new_supply: u64,
    /// Price recorded at the new supply.
    pub new_price: u64,
}

/// Whether trading is open: the campaign must be active and the platform not
/// paused. The campaign is looked at first.
pub open spec fn spec_trading_open(global_state: GlobalState, launchpad: LaunchpadState) -> Result<
    (),
    LaunchpadError,
> {
    if launchpad.status != LaunchpadStatus::Active {
        Err(LaunchpadError::LaunchpadNotActive)
    } else if global_state.paused {
        Err(LaunchpadError::PlatformPaused)
    } else {
        Ok(())
    }
}

/// The platform's and the creator's fee on `amount`, in that order.
pub open spec fn spec_both_fees(amount: u64, platform_fee_bps: u16, creator_fee_bps: u16) -> Result<
    (u64, u64),
    LaunchpadError,
> {
    match (
        spec_calculate_fee(amount, platform_fee_bps),
        spec_calculate_fee(amount, creator_fee_bps),
    ) {
        (Err(e), _) => Err(e),
        (Ok(_), Err(e)) => Err(e),
        (Ok(platform_fee), Ok(creator_fee)) => Ok((platform_fee, creator_fee)),
    }
}

/// The decision on a buy of `amount_sol` against the ledger `curve`.
///
/// In order: trading must be open; the amount must not be zero; both fees are
/// taken on the amount and must leave something that is not negative; the net
/// payment is turned into tokens; the tokens must reach `min_tokens_out` and
/// pass the slippage check against it; the new supply must stay within the
/// cap; the new reserves, the new fee total and the new price must fit in 64
/// bits.
pub open spec fn spec_quote_buy(
    global_state: GlobalState,
    launchpad: LaunchpadState,
    curve: BondingCurveState,
    amount_sol: u64,
    min_tokens_out: u64,
    max_slippage_bps: u16,
) -> Result<BuyReceipt, LaunchpadError> {
    if spec_trading_open(global_state, launchpad) is Err {
        Err(spec_trading_open(global_state, launchpad)->Err_0)
    } else if amount_sol == 0 {
        Err(LaunchpadError::InsufficientSolAmount)
    } else {
        match spec_both_fees(amount_sol, global_state.platform_fee_bps, launchpad.creator_fee_bps) {
            Err(e) => Err(e),
            Ok((platform_fee, creator_fee)) => if platform_fee + creator_fee > amount_sol {
                Err(LaunchpadError::InsufficientSolAmount)
            } else {
                spec_settle_buy(
                    curve,
                    (amount_sol - platform_fee - creator_fee) as u64,
                    platform_fee,
                    creator_fee,
                    min_tokens_out,
                    max_slippage_bps,
                )
            },
        }
    }
}

/// The second half of the decision on a buy, from the net payment on.
pub open spec fn spec_settle_buy(
    curve: BondingCurveState,
    net_sol_amount: u64,
    platform_fee: u64,
    creator_fee: u64,
    min_tokens_out: u64,
    max_slippage_bps: u16,
) -> Result<BuyReceipt, LaunchpadError> {
    match spec_tokens_for_sol_amount(
        net_sol_amount,
        curve.supply_sold,
        curve.curve_type,
        curve.curve_params,
    ) {
        Err(e) => Err(e),
        Ok(tokens) => if tokens < min_tokens_out {
            Err(LaunchpadError::MinTokensNotMet)
        } else if spec_validate_slippage(min_tokens_out, tokens, max_slippage_bps) is Err {
            Err(spec_validate_slippage(min_tokens_out, tokens, max_slippage_bps)->Err_0)
        } else if curve.supply_sold + tokens > u64::MAX {
            Err(LaunchpadError::ArithmeticOverflow)
        } else if curve.supply_sold + tokens > curve.curve_params.max_supply {
            Err(LaunchpadError::MaxSupplyExceeded)
        } else if curve.sol_reserves + net_sol_amount > u64::MAX {
            Err(LaunchpadError::ArithmeticOverflow)
        } else if curve.fee_collected + platform_fee + creator_fee > u64::MAX {
            Err(LaunchpadError::ArithmeticOverflow)
        } else {
            match spec_current_price(
                (curve.supply_sold + tokens) as u64,
                curve.curve_type,
                curve.curve_params,
            ) {
                Err(e) => Err(e),
                Ok(price) => Ok(
                    BuyReceipt {
                        tokens_minted: tokens,
                        net_sol_amount,
                        platform_fee,
                        creator_fee,
                        new_supply: (curve.supply_sold + tokens) as u64,
                        new_price: price,
                    },
                ),
            }
        },
    }
}

/// The ledger after a buy with the given receipt.
pub open spec fn spec_apply_buy(curve: BondingCurveState, receipt: BuyReceipt)
    -> BondingCurveState {
    BondingCurveState {
        supply_sold: receipt.new_supply,
        sol_reserves: (curve.sol_reserves + receipt.net_sol_amount) as u64,
        fee_collected: (curve.fee_collected + receipt.platform_fee + receipt.creator_fee) as u64,
        last_price: receipt.new_price,
        ..curve
    }
}

/// The decision on a sale of `amount_tokens` against the ledger `curve`, by a
/// seller who holds `trader_token_balance` tokens, from a vault that holds
/// `sol_vault_lamports`.
///
/// In order: trading must be open; the amount must not be zero, nor exceed
/// what the seller holds, nor what the curve has sold; the gross return is the
/// cost of the span that the sale gives back; both fees are taken on it and
/// must not exceed it; the net return must reach `min_sol_out` and pass the
/// slippage check against it; the vault must hold the net return; the reserves
/// must hold the gross return; the curve must have a price at the new supply,
/// which is recorded.
pub open spec fn spec_quote_sell(
    global_state: GlobalState,
    launchpad: LaunchpadState,
    curve: BondingCurveState,
    trader_token_balance: u64,
    sol_vault_lamports: u64,
    amount_tokens: u64,
    min_sol_out: u64,
    max_slippage_bps: u16,
) -> Result<SellReceipt, LaunchpadError> {
    if spec_trading_open(global_state, launchpad) is Err {
        Err(spec_trading_open(global_state, launchpad)->Err_0)
    } else if amount_tokens == 0 || trader_token_balance < amount_tokens || curve.supply_sold
        < amount_tokens {
        Err(LaunchpadError::InsufficientTokenAmount)
    } else {
        match spec_sol_for_token_amount(
            (curve.supply_sold - amount_tokens) as u64,
            curve.supply_sold,
            curve.curve_type,
            curve.curve_params,
        ) {
            Err(e) => Err(e),
            Ok(gross) => match spec_both_fees(
                gross,
                global_state.platform_fee_bps,
                launchpad.creator_fee_bps,
            ) {
                Err(e) => Err(e),
                Ok((platform_fee, creator_fee)) => if platform_fee + creator_fee > gross {
                    Err(LaunchpadError::ArithmeticUnderflow)
                } else {
                    spec_settle_sell(
                        curve,
                        sol_vault_lamports,
                        amount_tokens,
                        gross,
                        platform_fee,
                        creator_fee,
                        min_sol_out,
                        max_slippage_bps,
                    )
                },
            },
        }
    }
}

/// The second half of the decision on a sale, from the fees on.
pub open spec fn spec_settle_sell(
    curve: BondingCurveState,
    sol_vault_lamports: u64,
    amount_tokens: u64,
    gross: u64,
    platform_fee: u64,
    creator_fee: u64,
    min_sol_out: u64,
    max_slippage_bps: u16,
) -> Result<SellReceipt, LaunchpadError>
    recommends
        amount_tokens <= curve.supply_sold,
        platform_fee + creator_fee <= gross,
{
    let net = (gross - platform_fee - creator_fee) as u64;
    let new_supply = (curve.supply_sold - amount_tokens) as u64;
    if net < min_sol_out {
        Err(LaunchpadError::MinSolNotMet)
    } else if spec_validate_slippage(min_sol_out, net, max_slippage_bps) is Err {
        Err(spec_validate_slippage(min_sol_out, net, max_slippage_bps)->Err_0)
    } else if sol_vault_lamports < net {
        Err(LaunchpadError::InsufficientSolAmount)
    } else if curve.sol_reserves < gross {
        Err(LaunchpadError::ArithmeticUnderflow)
    } else {
        match spec_current_price(new_supply, curve.curve_type, curve.curve_params) {
            Err(e) => Err(e),
            Ok(price) => Ok(
                SellReceipt {
                    tokens_burned: amount_tokens,
                    sol_return_gross: gross,
                    sol_return_net: net,
                    platform_fee,
                    creator_fee,
                    new_supply,
                    new_price: price,
                },
            ),
        }
    }
}

/// The ledger after a sale with the given receipt. The reserves give up the
/// gross return: the fees stay in the vault, and the fee total does not move.
pub open spec fn spec_apply_sell(curve: BondingCurveState, receipt: SellReceipt)
    -> BondingCurveState {
    BondingCurveState {
        supply_sold: receipt.new_supply,
        sol_reserves: (curve.sol_reserves - receipt.sol_return_gross) as u64,
        last_price: receipt.new_price,
        ..curve
    }
}

/// A trade asked of the curve.
#[derive(Clone, Copy, Debug, PartialEq, Eq)]
pub enum TradeRequest {
    /// A buy, with the arguments of `buy_on_curve`.
    Buy { amount_sol: u64, min_tokens_out: u64, max_slippage_bps: u16 },
    /// A sale, with the arguments of `sell_to_curve`.
    Sell {
        trader_token_balance: u64,
        sol_vault_lamports: u64,
        amount_tokens: u64,
        min_sol_out: u64,
        max_slippage_bps: u16,
    },
}

/// A trade together with the platform and the campaign as they stand when it
/// is asked: both may change between two trades on one ledger.
#[derive(Clone, Copy, Debug, PartialEq, Eq)]
pub struct TradeStep {
    /// The platform at the time of the trade.
    pub global_state: GlobalState,
    /// The campaign at the time of the trade.
    pub launchpad: LaunchpadState,
    /// The trade.
    pub request: TradeRequest,
}

/// The ledger that one trade leaves where it succeeds, and its failure where
/// it does not.
pub open spec fn spec_trade(curve: BondingCurveState, step: TradeStep) -> Result<
    BondingCurveState,
    LaunchpadError,
> {
    match step.request {
        TradeRequest::Buy { amount_sol, min_tokens_out, max_slippage_bps } => match spec_quote_buy(
            step.global_state,
            step.launchpad,
            curve,
            amount_sol,
            min_tokens_out,
            max_slippage_bps,
        ) {
            Ok(receipt) => Ok(spec_apply_buy(curve, receipt)),
            Err(e) => Err(e),
        },
        TradeRequest::Sell {
            trader_token_balance,
            sol_vault_lamports,
            amount_tokens,
            min_sol_out,
            max_slippage_bps,
        } => match spec_quote_sell(
            step.global_state,
            step.launchpad,
            curve,
            trader_token_balance,
            sol_vault_lamports,
            amount_tokens,
            min_sol_out,
            max_slippage_bps,
        ) {
            Ok(receipt) => Ok(spec_apply_sell(curve, receipt)),
            Err(e) => Err(e),
        },
    }
}

/// The ledger after one trade: changed as the trade says where it succeeds,
/// unchanged where it fails.
pub open spec fn spec_after_trade(curve: BondingCurveState, step: TradeStep) -> BondingCurveState {
    match spec_trade(curve, step) {
        Ok(next) => next,
        Err(_) => curve,
    }
}

/// The ledger after a sequence of trades, applied in order.
pub open spec fn spec_after_trades(curve: BondingCurveState, steps: Seq<TradeStep>)
    -> BondingCurveState
    decreases steps.len(),
{
    if steps.len() == 0 {
        curve
    } else {
        spec_after_trade(spec_after_trades(curve, steps.drop_last()), steps.last())
    }
}

/// One trade keeps the ledger's invariant and leaves the curve as it is: the
/// supply sold stays within the cap, and neither the family nor the parameters
/// of the curve change.
pub proof fn lemma_trade_keeps_invariant(curve: BondingCurveState, step: TradeStep)
    requires
        curve.wf(),
    ensures
        spec_after_trade(curve, step).wf(),
        spec_after_trade(curve, step).curve_type == curve.curve_type,
        spec_after_trade(curve, step).curve_params == curve.curve_params,
{
}

/// No sequence of trades, whatever succeeds and whatever fails in it, takes
/// the supply sold above the cap of the curve; and as the supply is a whole
/// number that a sale only lowers by what is there, it never falls below
/// zero.
pub proof fn lemma_trades_keep_invariant(curve: BondingCurveState, steps: Seq<TradeStep>)
    requires
        curve.wf(),
    ensures
        spec_after_trades(curve, steps).wf(),
        0 <= spec_after_trades(curve, steps).supply_sold <= curve.curve_params.max_supply,
        spec_after_trades(curve, steps).curve_type == curve.curve_type,
        spec_after_trades(curve, steps).curve_params == curve.curve_params,
    decreases steps.len(),
{
    if steps.len() > 0 {
        lemma_trades_keep_invariant(curve, steps.drop_last());
        lemma_trade_keeps_invariant(spec_after_trades(curve, steps.drop_last()), steps.last());
    }
}

/// The price of a curve at zero supply, wherever it has one, is the base
/// price.
pub proof fn lemma_price_at_zero_is_base_price(curve: BondingCurveState)
    ensures
        spec_current_price(0, curve.curve_type, curve.curve_params) matches Ok(price) ==> price
            == curve.curve_params.base_price,
{
    assert((curve.curve_params.slope as int) * 0 == 0);
    if curve.curve_type == CurveType::Exponential && curve.curve_params.step != 0 {
        lemma_exponential_price_starts_at_base(
            0,
            curve.curve_params.base_price,
            curve.curve_params.slope,
            curve.curve_params.step,
        );
    }
}

/// After every trade that succeeds, a buy or a sale, the recorded price is the
/// price of the curve at the supply sold; and once nothing is sold it is the
/// base price.
pub proof fn lemma_trade_records_price(curve: BondingCurveState, step: TradeStep)
    requires
        spec_trade(curve, step) is Ok,
    ensures
        spec_current_price(
            spec_trade(curve, step).unwrap().supply_sold,
            curve.curve_type,
            curve.curve_params,
        ) == Ok::<u64, LaunchpadError>(spec_trade(curve, step).unwrap().last_price),
        spec_trade(curve, step).unwrap().supply_sold == 0 ==> spec_trade(
            curve,
            step,
        ).unwrap().last_price == curve.curve_params.base_price,
{
    lemma_price_at_zero_is_base_price(curve);
}

/// On a linear curve a buy never pays less than the curve gives back for the
/// same tokens: where the return for the span that a buy has just added can be
/// computed, it is at most the net payment of the buy. Rounding thus never
/// lets a trader take out of the reserves more than the trader put in.
pub proof fn lemma_linear_buy_covers_its_return(
    global_state: GlobalState,
    launchpad: LaunchpadState,
    curve: BondingCurveState,
    amount_sol: u64,
    min_tokens_out: u64,
    max_slippage_bps: u16,
)
    requires
        curve.curve_type == CurveType::Linear,
        spec_quote_buy(global_state, launchpad, curve, amount_sol, min_tokens_out, max_slippage_bps)
            is Ok,
    ensures
        ({
            let receipt = spec_quote_buy(
                global_state,
                launchpad,
                curve,
                amount_sol,
                min_tokens_out,
                max_slippage_bps,
            ).unwrap();
            spec_sol_for_token_amount(
                curve.supply_sold,
                receipt.new_supply,
                curve.curve_type,
                curve.curve_params,
            ) matches Ok(gross) ==> gross <= receipt.net_sol_amount
        }),
{
    let receipt = spec_quote_buy(
        global_state,
        launchpad,
        curve,
        amount_sol,
        min_tokens_out,
        max_slippage_bps,
    ).unwrap();
    let net = receipt.net_sol_amount;
    let tokens = spec_linear_tokens(
        net,
        curve.supply_sold,
        curve.curve_params.base_price,
        curve.curve_params.slope,
    );
    assert(spec_tokens_for_sol_amount(net, curve.supply_sold, curve.curve_type, curve.curve_params)
        == tokens);
    assert(tokens == Ok::<u64, LaunchpadError>(receipt.tokens_minted));
    assert(receipt.new_supply == curve.supply_sold + receipt.tokens_minted);
    lemma_linear_tokens_is_inverse(
        net,
        curve.supply_sold,
        curve.curve_params.base_price,
        curve.curve_params.slope,
    );
    lemma_linear_cost_terms_nonnegative(
        curve.supply_sold as int,
        receipt.new_supply as int,
        curve.curve_params.base_price as int,
        curve.curve_params.slope as int,
    );
}

/// Both fees on one amount never exceed 64 bits together.
pub proof fn lemma_both_fees_fit(amount: u64, platform_fee_bps: u16, creator_fee_bps: u16)
    ensures
        spec_both_fees(amount, platform_fee_bps, creator_fee_bps) matches Ok((platform_fee, creator_fee))
            ==> platform_fee + creator_fee <= u64::MAX && platform_fee <= amount && creator_fee
            <= amount,
{
    lemma_fee_at_most_amount(amount, platform_fee_bps);
    lemma_fee_at_most_amount(amount, creator_fee_bps);
    if spec_both_fees(amount, platform_fee_bps, creator_fee_bps) is Ok {
        if platform_fee_bps != 0 && creator_fee_bps != 0 {
            assert(amount * platform_fee_bps >= amount) by (nonlinear_arith)
                requires
                    platform_fee_bps >= 1,
                    amount >= 0,
            ;
            assert(amount * creator_fee_bps >= amount) by (nonlinear_arith)
                requires
                    creator_fee_bps >= 1,
                    amount >= 0,
            ;
        }
    }
}

/// With both rates within their bounds, 1000 basis points for the platform
/// and 500 for the creator, the two fees together never exceed the amount: a
/// trade on a platform and a campaign that were set up within the rules never
/// fails because its fees eat the amount.
pub proof fn lemma_bounded_fees_leave_the_rest(
    amount: u64,
    platform_fee_bps: u16,
    creator_fee_bps: u16,
)
    requires
        platform_fee_bps <= 1000,
        creator_fee_bps <= 500,
    ensures
        spec_both_fees(amount, platform_fee_bps, creator_fee_bps) matches Ok((platform_fee, creator_fee))
            ==> platform_fee + creator_fee <= amount,
{
    if spec_both_fees(amount, platform_fee_bps, creator_fee_bps) is Ok {
        assert((amount * platform_fee_bps) / 10000 <= amount / 10) by (nonlinear_arith)
            requires
                0 <= amount,
                0 <= platform_fee_bps <= 1000,
        ;
        assert((amount * creator_fee_bps) / 10000 <= amount / 20) by (nonlinear_arith)
            requires
                0 <= amount,
                0 <= creator_fee_bps <= 500,
        ;
    }
}

/// Checks that trading is open.
fn check_trading_open(global_state: &GlobalState, launchpad: &LaunchpadState) -> (r: Result<
    (),
    LaunchpadError,
>)
    ensures
        r == spec_trading_open(*global_state, *launchpad),
{
    match launchpad.status {
        LaunchpadStatus::Active => {},
        _ => {
            return Err(LaunchpadError::LaunchpadNotActive);
        },
    }
    if global_state.paused {
        return Err(LaunchpadError::PlatformPaused);
    }
    Ok(())
}

/// Computes the platform's and the creator's fee on `amount`.
fn both_fees(amount: u64, platform_fee_bps: u16, creator_fee_bps: u16) -> (r: Result<
    (u64, u64),
    LaunchpadError,
>)
    ensures
        r == spec_both_fees(amount, platform_fee_bps, creator_fee_bps),
        r matches Ok((platform_fee, creator_fee)) ==> platform_fee + creator_fee <= u64::MAX,
{
    proof {
        lemma_both_fees_fit(amount, platform_fee_bps, creator_fee_bps);
    }
    let platform_fee = match calculate_fee(amount, platform_fee_bps) {
        Ok(fee) => fee,
        Err(e) => {
            return Err(e);
        },
    };
    let creator_fee = match calculate_fee(amount, creator_fee_bps) {
        Ok(fee) => fee,
        Err(e) => {
            return Err(e);
        },
    };
    Ok((platform_fee, creator_fee))
}

/// Decides a buy of `amount_sol` without applying it.
///
/// The result is the receipt of the buy, or the first failure in the order of
/// the checks: `LaunchpadNotActive`, `PlatformPaused`, `InsufficientSolAmount`
/// for an amount of zero, a failure of either fee, `InsufficientSolAmount`
/// where the fees exceed the amount, a failure of the curve's inverse,
/// `MinTokensNotMet`, a failure of the slippage check, `ArithmeticOverflow` or
/// `MaxSupplyExceeded` for the new supply, `ArithmeticOverflow` for the new
/// reserves or the new fee total, a failure of the new price.
pub fn quote_buy(
    global_state: &GlobalState,
    launchpad: &LaunchpadState,
    bonding_curve: &BondingCurveState,
    amount_sol: u64,
    min_tokens_out: u64,
    max_slippage_bps: u16,
) -> (r: Result<BuyReceipt, LaunchpadError>)
    ensures
        r == spec_quote_buy(
            *global_state,
            *launchpad,
            *bonding_curve,
            amount_sol,
            min_tokens_out,
            max_slippage_bps,
        ),
        r matches Ok(receipt) ==> {
            &&& receipt.net_sol_amount + receipt.platform_fee + receipt.creator_fee == amount_sol
            &&& receipt.tokens_minted >= min_tokens_out
            &&& receipt.new_supply == bonding_curve.supply_sold + receipt.tokens_minted
            &&& receipt.new_supply <= bonding_curve.curve_params.max_supply
            &&& spec_current_price(
                receipt.new_supply,
                bonding_curve.curve_type,
                bonding_curve.curve_params,
            ) == Ok::<u64, LaunchpadError>(receipt.new_price)
        },
{
    match check_trading_open(global_state, launchpad) {
        Ok(()) => {},
        Err(e) => {
            return Err(e);
        },
    }
    if amount_sol == 0 {
        return Err(LaunchpadError::InsufficientSolAmount);
    }
    let (platform_fee, creator_fee) = match both_fees(
        amount_sol,
        global_state.platform_fee_bps,
        launchpad.creator_fee_bps,
    ) {
        Ok(fees) => fees,
        Err(e) => {
            return Err(e);
        },
    };
    let total_fees = platform_fee + creator_fee;
    let net_sol_amount = match amount_sol.checked_sub(total_fees) {
        Some(net) => net,
        None => {
            return Err(LaunchpadError::InsufficientSolAmount);
        },
    };
    let current_supply = bonding_curve.supply_sold;
    let tokens_to_mint = match calculate_tokens_for_sol_amount(
        net_sol_amount,
        current_supply,
        &bonding_curve.curve_type,
        &bonding_curve.curve_params,
    ) {
        Ok(tokens) => tokens,
        Err(e) => {
            return Err(e);
        },
    };
    if tokens_to_mint < min_tokens_out {
        return Err(LaunchpadError::MinTokensNotMet);
    }
    match validate_slippage(min_tokens_out, tokens_to_mint, max_slippage_bps) {
        Ok(()) => {},
        Err(e) => {
            return Err(e);
        },
    }
    let new_supply = match current_supply.checked_add(tokens_to_mint) {
        Some(supply) => supply,
        None => {
            return Err(LaunchpadError::ArithmeticOverflow);
        },
    };
    if new_supply > bonding_curve.curve_params.max_supply {
        return Err(LaunchpadError::MaxSupplyExceeded);
    }
    if bonding_curve.sol_reserves.checked_add(net_sol_amount).is_none() {
        return Err(LaunchpadError::ArithmeticOverflow);
    }
    if bonding_curve.fee_collected.checked_add(total_fees).is_none() {
        return Err(LaunchpadError::ArithmeticOverflow);
    }
    let new_price = match calculate_current_price(
        new_supply,
        &bonding_curve.curve_type,
        &bonding_curve.curve_params,
    ) {
        Ok(price) => price,
        Err(e) => {
            return Err(e);
        },
    };
    Ok(
        BuyReceipt {
            tokens_minted: tokens_to_mint,
            net_sol_amount,
            platform_fee,
            creator_fee,
            new_supply,
            new_price,
        },
    )
}

/// Buys on the curve: decides the buy as `quote_buy` does and, where it
/// succeeds, applies it to the ledger.
///
/// On success the supply grows by the tokens minted and stays within the cap,
/// the reserves grow by the net payment, the fee total grows by both fees, and
/// the recorded price is the price of the curve at the new supply. On failure
/// the ledger is unchanged.
pub fn buy_on_curve(
    global_state: &GlobalState,
    launchpad: &LaunchpadState,
    bonding_curve: &mut BondingCurveState,
    amount_sol: u64,
    min_tokens_out: u64,
    max_slippage_bps: u16,
) -> (r: Result<BuyReceipt, LaunchpadError>)
    ensures
        r == spec_quote_buy(
            *global_state,
            *launchpad,
            *old(bonding_curve),
            amount_sol,
            min_tokens_out,
            max_slippage_bps,
        ),
        r is Err ==> *final(bonding_curve) == *old(bonding_curve),
        r matches Ok(receipt) ==> {
            &&& *final(bonding_curve) == spec_apply_buy(*old(bonding_curve), receipt)
            &&& final(bonding_curve).supply_sold == old(bonding_curve).supply_sold
                + receipt.tokens_minted
            &&& final(bonding_curve).sol_reserves == old(bonding_curve).sol_reserves
                + receipt.net_sol_amount
            &&& final(bonding_curve).fee_collected == old(bonding_curve).fee_collected
                + receipt.platform_fee + receipt.creator_fee
            &&& final(bonding_curve).wf()
            &&& spec_current_price(
                final(bonding_curve).supply_sold,
                final(bonding_curve).curve_type,
                final(bonding_curve).curve_params,
            ) == Ok::<u64, LaunchpadError>(final(bonding_curve).last_price)
        },
{
    let receipt = match quote_buy(
        global_state,
        launchpad,
        bonding_curve,
        amount_sol,
        min_tokens_out,
        max_slippage_bps,
    ) {
        Ok(receipt) => receipt,
        Err(e) => {
            return Err(e);
        },
    };
    proof {
        lemma_both_fees_fit(amount_sol, global_state.platform_fee_bps, launchpad.creator_fee_bps);
    }
    bonding_curve.supply_sold = receipt.new_supply;
    bonding_curve.sol_reserves = bonding_curve.sol_reserves + receipt.net_sol_amount;
    bonding_curve.fee_collected = bonding_curve.fee_collected + (receipt.platform_fee
        + receipt.creator_fee);
    bonding_curve.last_price = receipt.new_price;
    Ok(receipt)
}

/// Decides a sale of `amount_tokens` without applying it.
///
/// `trader_token_balance` is what the seller holds and `sol_vault_lamports`
/// what the campaign's vault holds. The result is the receipt of the sale, or
/// the first failure in the order of the checks: `LaunchpadNotActive`,
/// `PlatformPaused`, `InsufficientTokenAmount` for an amount that is zero or
/// exceeds the seller's balance or the supply sold, a failure of the curve's
/// cost, a failure of either fee, `ArithmeticUnderflow` where the fees exceed
/// the gross return, `MinSolNotMet`, a failure of the slippage check,
/// `InsufficientSolAmount` where the vault holds less than the net return,
/// `ArithmeticUnderflow` where the reserves hold less than the gross return, a
/// failure of the new price.
pub fn quote_sell(
    global_state: &GlobalState,
    launchpad: &LaunchpadState,
    bonding_curve: &BondingCurveState,
    trader_token_balance: u64,
    sol_vault_lamports: u64,
    amount_tokens: u64,
    min_sol_out: u64,
    max_slippage_bps: u16,
) -> (r: Result<SellReceipt, LaunchpadError>)
    ensures
        r == spec_quote_sell(
            *global_state,
            *launchpad,
            *bonding_curve,
            trader_token_balance,
            sol_vault_lamports,
            amount_tokens,
            min_sol_out,
            max_slippage_bps,
        ),
        r matches Ok(receipt) ==> {
            &&& receipt.tokens_burned == amount_tokens
            &&& receipt.sol_return_net + receipt.platform_fee + receipt.creator_fee
                == receipt.sol_return_gross
            &&& receipt.sol_return_net >= min_sol_out
            &&& receipt.sol_return_net <= sol_vault_lamports
            &&& receipt.sol_return_gross <= bonding_curve.sol_reserves
            &&& receipt.new_supply == bonding_curve.supply_sold - amount_tokens
            &&& spec_current_price(
                receipt.new_supply,
                bonding_curve.curve_type,
                bonding_curve.curve_params,
            ) == Ok::<u64, LaunchpadError>(receipt.new_price)
            &&& receipt.new_supply == 0 ==> receipt.new_price
                == bonding_curve.curve_params.base_price
        },
{
    match check_trading_open(global_state, launchpad) {
        Ok(()) => {},
        Err(e) => {
            return Err(e);
        },
    }
    if amount_tokens == 0 {
        return Err(LaunchpadError::InsufficientTokenAmount);
    }
    if trader_token_balance < amount_tokens {
        return Err(LaunchpadError::InsufficientTokenAmount);
    }
    if bonding_curve.supply_sold < amount_tokens {
        return Err(LaunchpadError::InsufficientTokenAmount);
    }
    let current_supply = bonding_curve.supply_sold;
    let new_supply = current_supply - amount_tokens;
    let sol_return_gross = match calculate_sol_for_token_amount(
        new_supply,
        current_supply,
        &bonding_curve.curve_type,
        &bonding_curve.curve_params,
    ) {
        Ok(gross) => gross,
        Err(e) => {
            return Err(e);
        },
    };
    let (platform_fee, creator_fee) = match both_fees(
        sol_return_gross,
        global_state.platform_fee_bps,
        launchpad.creator_fee_bps,
    ) {
        Ok(fees) => fees,
        Err(e) => {
            return Err(e);
        },
    };
    let total_fees = platform_fee + creator_fee;
    let sol_return_net = match sol_return_gross.checked_sub(total_fees) {
        Some(net) => net,
        None => {
            return Err(LaunchpadError::ArithmeticUnderflow);
        },
    };
    if sol_return_net < min_sol_out {
        return Err(LaunchpadError::MinSolNotMet);
    }
    match validate_slippage(min_sol_out, sol_return_net, max_slippage_bps) {
        Ok(()) => {},
        Err(e) => {
            return Err(e);
        },
    }
    if sol_vault_lamports < sol_return_net {
        return Err(LaunchpadError::InsufficientSolAmount);
    }
    if bonding_curve.sol_reserves < sol_return_gross {
        return Err(LaunchpadError::ArithmeticUnderflow);
    }
    proof {
        lemma_price_at_zero_is_base_price(*bonding_curve);
    }
    let new_price = match calculate_current_price(
        new_supply,
        &bonding_curve.curve_type,
        &bonding_curve.curve_params,
    ) {
        Ok(price) => price,
        Err(e) => {
            return Err(e);
        },
    };
    Ok(
        SellReceipt {
            tokens_burned: amount_tokens,
            sol_return_gross,
            sol_return_net,
            platform_fee,
            creator_fee,
            new_supply,
            new_price,
        },
    )
}

/// Sells to the curve: decides the sale as `quote_sell` does and, where it
/// succeeds, applies it to the ledger.
///
/// On success the supply falls by the tokens burned, the reserves fall by the
/// gross return, the fee total stays, and the recorded price is the price of
/// the curve at the new supply, the same price that a buy records; once
/// nothing is sold that is the base price. On failure the ledger is
/// unchanged.
pub fn sell_to_curve(
    global_state: &GlobalState,
    launchpad: &LaunchpadState,
    bonding_curve: &mut BondingCurveState,
    trader_token_balance: u64,
    sol_vault_lamports: u64,
    amount_tokens: u64,
    min_sol_out: u64,
    max_slippage_bps: u16,
) -> (r: Result<SellReceipt, LaunchpadError>)
    ensures
        r == spec_quote_sell(
            *global_state,
            *launchpad,
            *old(bonding_curve),
            trader_token_balance,
            sol_vault_lamports,
            amount_tokens,
            min_sol_out,
            max_slippage_bps,
        ),
        r is Err ==> *final(bonding_curve) == *old(bonding_curve),
        r matches Ok(receipt) ==> {
            &&& *final(bonding_curve) == spec_apply_sell(*old(bonding_curve), receipt)
            &&& final(bonding_curve).supply_sold == old(bonding_curve).supply_sold - amount_tokens
            &&& final(bonding_curve).sol_reserves == old(bonding_curve).sol_reserves
                - receipt.sol_return_gross
            &&& final(bonding_curve).fee_collected == old(bonding_curve).fee_collected
            &&& old(bonding_curve).wf() ==> final(bonding_curve).wf()
            &&& spec_current_price(
                final(bonding_curve).supply_sold,
                final(bonding_curve).curve_type,
                final(bonding_curve).curve_params,
            ) == Ok::<u64, LaunchpadError>(final(bonding_curve).last_price)
            &&& final(bonding_curve).supply_sold == 0 ==> final(bonding_curve).last_price
                == final(bonding_curve).curve_params.base_price
        },
{
    let receipt = match quote_sell(
        global_state,
        launchpad,
        bonding_curve,
        trader_token_balance,
        sol_vault_lamports,
        amount_tokens,
        min_sol_out,
        max_slippage_bps,
    ) {
        Ok(receipt) => receipt,
        Err(e) => {
            return Err(e);
        },
    };
    bonding_curve.supply_sold = receipt.new_supply;
    bonding_curve.sol_reserves = bonding_curve.sol_reserves - receipt.sol_return_gross;
    bonding_curve.last_price = receipt.new_price;
    Ok(receipt)
}

} // verus!
