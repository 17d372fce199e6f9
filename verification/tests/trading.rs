use launchpad::error::{ErrorKind, LaunchpadError};
use launchpad::fixed_point::PRECISION;
use launchpad::state::{
    BondingCurveState, CurveParams, CurveType, GlobalState, GraduationCriteria, LaunchpadState,
    LaunchpadStatus, Pubkey,
};
use launchpad::trade::{buy_on_curve, quote_buy, quote_sell, sell_to_curve};

fn platform(platform_fee_bps: u16, paused: bool) -> GlobalState {
    GlobalState {
        authority: Pubkey::default(),
        platform_fee_bps,
        fee_vault: Pubkey::default(),
        paused,
        upgrade_authority: Pubkey::default(),
        bump: 255,
    }
}

fn campaign(status: LaunchpadStatus, creator_fee_bps: u16) -> LaunchpadState {
    LaunchpadState {
        mint: Pubkey::default(),
        creator: Pubkey::default(),
        sol_vault: Pubkey::default(),
        token_vault: Pubkey::default(),
        bonding_curve: Pubkey::default(),
        status,
        creator_fee_bps,
        total_supply: 1_000_000,
        graduation_criteria: GraduationCriteria {
            min_sol_raised: None,
            min_supply_sold: None,
            time_limit: None,
            custom_logic: None,
        },
        meteora_pool: None,
        created_at: 0,
        graduated_at: None,
        bump: 254,
    }
}

fn ledger(curve_type: CurveType, base_price: u64, slope: u64, step: u64, max_supply: u64) -> BondingCurveState {
    BondingCurveState {
        launchpad: Pubkey::default(),
        curve_type,
        curve_params: CurveParams { base_price, slope, step, max_supply, reserved: [0; 4] },
        supply_sold: 0,
        sol_reserves: 0,
        virtual_sol_reserves: 0,
        virtual_token_reserves: 0,
        fee_collected: 0,
        last_price: base_price,
        bump: 253,
    }
}

#[test]
fn buy_settles_fees_tokens_and_ledger() {
    let gs = platform(100, false);
    let lp = campaign(LaunchpadStatus::Active, 200);
    let mut bc = ledger(CurveType::Linear, 1000, 10, 1, 1_000_000);

    // fees 100 + 200, net 9700, floor((sqrt(1000^2 + 20 * 9700) - 1000) / 10) = 9
    let receipt = buy_on_curve(&gs, &lp, &mut bc, 10_000, 9, 0).unwrap();
    assert_eq!(receipt.platform_fee, 100);
    assert_eq!(receipt.creator_fee, 200);
    assert_eq!(receipt.net_sol_amount, 9700);
    assert_eq!(receipt.tokens_minted, 9);
    assert_eq!(receipt.new_supply, 9);
    assert_eq!(receipt.new_price, 1090);

    assert_eq!(bc.supply_sold, 9);
    assert_eq!(bc.sol_reserves, 9700);
    assert_eq!(bc.fee_collected, 300);
    assert_eq!(bc.last_price, 1090);
    assert_eq!(bc.curve_params.max_supply, 1_000_000);
}

#[test]
fn quote_buy_decides_without_touching_the_ledger() {
    let gs = platform(100, false);
    let lp = campaign(LaunchpadStatus::Active, 200);
    let mut bc = ledger(CurveType::Linear, 1000, 10, 1, 1_000_000);
    let before = bc;
    let quoted = quote_buy(&gs, &lp, &bc, 10_000, 9, 0).unwrap();
    assert_eq!(bc, before);
    let bought = buy_on_curve(&gs, &lp, &mut bc, 10_000, 9, 0).unwrap();
    assert_eq!(quoted, bought);
}

#[test]
fn buy_checks_state_before_anything_else() {
    let mut bc = ledger(CurveType::Linear, 1000, 10, 1, 1_000_000);
    let before = bc;
    let open = platform(100, false);
    let shut = platform(100, true);

    for status in [LaunchpadStatus::Graduated, LaunchpadStatus::Paused] {
        let lp = campaign(status, 200);
        // the campaign is looked at before the platform and before the amount
        let err = buy_on_curve(&shut, &lp, &mut bc, 0, 0, 0).unwrap_err();
        assert_eq!(err, LaunchpadError::LaunchpadNotActive);
        assert_eq!(err.kind(), ErrorKind::State);
        let err = buy_on_curve(&open, &lp, &mut bc, 10_000, 0, 500).unwrap_err();
        assert_eq!(err, LaunchpadError::LaunchpadNotActive);
    }
    let lp = campaign(LaunchpadStatus::Active, 200);
    let err = buy_on_curve(&shut, &lp, &mut bc, 0, 0, 0).unwrap_err();
    assert_eq!(err, LaunchpadError::PlatformPaused);
    assert_eq!(err.kind(), ErrorKind::State);
    let err = buy_on_curve(&open, &lp, &mut bc, 0, 0, 0).unwrap_err();
    assert_eq!(err, LaunchpadError::InsufficientSolAmount);
    assert_eq!(bc, before);
}

#[test]
fn buy_rejects_fees_above_the_amount() {
    let gs = platform(6000, false);
    let lp = campaign(LaunchpadStatus::Active, 6000);
    let mut bc = ledger(CurveType::Linear, 1000, 10, 1, 1_000_000);
    assert_eq!(
        buy_on_curve(&gs, &lp, &mut bc, 10_000, 0, 500),
        Err(LaunchpadError::InsufficientSolAmount)
    );
    let gs = platform(10_001, false);
    assert_eq!(
        buy_on_curve(&gs, &lp, &mut bc, 10_000, 0, 500),
        Err(LaunchpadError::InvalidFeeBasisPoints)
    );
}

#[test]
fn buy_enforces_minimum_and_slippage() {
    let gs = platform(100, false);
    let lp = campaign(LaunchpadStatus::Active, 200);
    let mut bc = ledger(CurveType::Linear, 1000, 10, 1, 1_000_000);
    let before = bc;
    // 9 tokens come out
    assert_eq!(
        buy_on_curve(&gs, &lp, &mut bc, 10_000, 10, 500),
        Err(LaunchpadError::MinTokensNotMet)
    );
    // without tolerance the tokens must equal the minimum
    assert_eq!(
        buy_on_curve(&gs, &lp, &mut bc, 10_000, 8, 0),
        Err(LaunchpadError::SlippageExceeded)
    );
    assert_eq!(
        buy_on_curve(&gs, &lp, &mut bc, 10_000, 8, 10_001),
        Err(LaunchpadError::InvalidFeeBasisPoints)
    );
    assert_eq!(bc, before);
    // with a tolerance more than the minimum passes
    let receipt = buy_on_curve(&gs, &lp, &mut bc, 10_000, 8, 500).unwrap();
    assert_eq!(receipt.tokens_minted, 9);
}

#[test]
fn buy_never_exceeds_the_cap() {
    let gs = platform(0, false);
    let lp = campaign(LaunchpadStatus::Active, 0);
    let mut bc = ledger(CurveType::Linear, 1000, 0, 1, 15);
    assert_eq!(buy_on_curve(&gs, &lp, &mut bc, 10_000, 0, 500).unwrap().tokens_minted, 10);
    let before = bc;
    assert_eq!(
        buy_on_curve(&gs, &lp, &mut bc, 6_000, 0, 500),
        Err(LaunchpadError::MaxSupplyExceeded)
    );
    assert_eq!(bc, before);
    assert_eq!(buy_on_curve(&gs, &lp, &mut bc, 5_000, 0, 500).unwrap().new_supply, 15);
    assert_eq!(bc.supply_sold, 15);
    assert_eq!(
        buy_on_curve(&gs, &lp, &mut bc, 1_000, 0, 500),
        Err(LaunchpadError::MaxSupplyExceeded)
    );
    assert!(bc.supply_sold <= bc.curve_params.max_supply);
}

#[test]
fn buy_reports_overflow_of_the_counters() {
    let gs = platform(100, false);
    let lp = campaign(LaunchpadStatus::Active, 0);
    let mut bc = ledger(CurveType::Linear, 1000, 0, 1, 1_000_000);
    bc.sol_reserves = u64::MAX - 10;
    assert_eq!(
        buy_on_curve(&gs, &lp, &mut bc, 10_000, 0, 500),
        Err(LaunchpadError::ArithmeticOverflow)
    );
    bc.sol_reserves = 0;
    bc.fee_collected = u64::MAX - 10;
    assert_eq!(
        buy_on_curve(&gs, &lp, &mut bc, 10_000, 0, 500),
        Err(LaunchpadError::ArithmeticOverflow)
    );
    assert_eq!(bc.fee_collected, u64::MAX - 10);
    assert_eq!(bc.supply_sold, 0);
}

#[test]
fn buy_on_custom_curve_fails() {
    let gs = platform(100, false);
    let lp = campaign(LaunchpadStatus::Active, 0);
    let mut bc = ledger(CurveType::Custom, 1000, 0, 1, 1_000_000);
    let err = buy_on_curve(&gs, &lp, &mut bc, 10_000, 0, 500).unwrap_err();
    assert_eq!(err, LaunchpadError::InvalidCurveParams);
    assert_eq!(err.kind(), ErrorKind::Validation);
}

#[test]
fn buy_on_exponential_curve() {
    let gs = platform(0, false);
    let lp = campaign(LaunchpadStatus::Active, 0);
    // base 10, multiplier 2.0, step 1000: two lots cost 15000 + 30000
    let mut bc = ledger(CurveType::Exponential, 10, 2 * PRECISION, 1000, 1_000_000);
    let receipt = buy_on_curve(&gs, &lp, &mut bc, 45_000, 2000, 0).unwrap();
    assert_eq!(receipt.tokens_minted, 2000);
    assert_eq!(receipt.new_price, 40);
    assert_eq!(bc.supply_sold, 2000);
    assert_eq!(bc.last_price, 40);
    assert_eq!(bc.sol_reserves, 45_000);
}

#[test]
fn sell_settles_fees_return_and_ledger() {
    let gs = platform(100, false);
    let lp = campaign(LaunchpadStatus::Active, 200);
    let mut bc = ledger(CurveType::Linear, 1000, 10, 1, 1_000_000);
    bc.supply_sold = 9;
    bc.sol_reserves = 9700;
    bc.fee_collected = 300;
    bc.last_price = 1090;

    // gross = cost(5, 9) = 4000 + 10 * (81 - 25) / 2 = 4280; fees 42 + 85
    let receipt = sell_to_curve(&gs, &lp, &mut bc, 9, 10_000, 4, 4153, 0).unwrap();
    assert_eq!(receipt.tokens_burned, 4);
    assert_eq!(receipt.sol_return_gross, 4280);
    assert_eq!(receipt.platform_fee, 42);
    assert_eq!(receipt.creator_fee, 85);
    assert_eq!(receipt.sol_return_net, 4153);
    assert_eq!(receipt.new_supply, 5);
    assert_eq!(receipt.new_price, 1050);

    assert_eq!(bc.supply_sold, 5);
    // the reserves give up the gross return, and the fee total stays
    assert_eq!(bc.sol_reserves, 9700 - 4280);
    assert_eq!(bc.fee_collected, 300);
    assert_eq!(bc.last_price, 1050);
}

#[test]
fn quote_sell_decides_without_touching_the_ledger() {
    let gs = platform(100, false);
    let lp = campaign(LaunchpadStatus::Active, 200);
    let mut bc = ledger(CurveType::Linear, 1000, 10, 1, 1_000_000);
    bc.supply_sold = 9;
    bc.sol_reserves = 9700;
    let before = bc;
    let quoted = quote_sell(&gs, &lp, &bc, 9, 10_000, 4, 4153, 0).unwrap();
    assert_eq!(bc, before);
    let sold = sell_to_curve(&gs, &lp, &mut bc, 9, 10_000, 4, 4153, 0).unwrap();
    assert_eq!(quoted, sold);
}

#[test]
fn sell_checks_state_and_amounts() {
    let open = platform(100, false);
    let shut = platform(100, true);
    let mut bc = ledger(CurveType::Linear, 1000, 10, 1, 1_000_000);
    bc.supply_sold = 9;
    bc.sol_reserves = 9700;
    let before = bc;

    for status in [LaunchpadStatus::Graduated, LaunchpadStatus::Paused] {
        let lp = campaign(status, 200);
        let err = sell_to_curve(&shut, &lp, &mut bc, 9, 10_000, 4, 0, 500).unwrap_err();
        assert_eq!(err, LaunchpadError::LaunchpadNotActive);
        assert_eq!(err.kind(), ErrorKind::State);
    }
    let lp = campaign(LaunchpadStatus::Active, 200);
    assert_eq!(
        sell_to_curve(&shut, &lp, &mut bc, 9, 10_000, 4, 0, 500),
        Err(LaunchpadError::PlatformPaused)
    );
    // nothing to sell
    assert_eq!(
        sell_to_curve(&open, &lp, &mut bc, 9, 10_000, 0, 0, 500),
        Err(LaunchpadError::InsufficientTokenAmount)
    );
    // more than the seller holds
    assert_eq!(
        sell_to_curve(&open, &lp, &mut bc, 3, 10_000, 4, 0, 500),
        Err(LaunchpadError::InsufficientTokenAmount)
    );
    // more than the curve has sold
    assert_eq!(
        sell_to_curve(&open, &lp, &mut bc, 100, 10_000, 10, 0, 500),
        Err(LaunchpadError::InsufficientTokenAmount)
    );
    assert_eq!(bc, before);
}

#[test]
fn sell_enforces_minimum_slippage_and_balances() {
    let gs = platform(100, false);
    let lp = campaign(LaunchpadStatus::Active, 200);
    let mut bc = ledger(CurveType::Linear, 1000, 10, 1, 1_000_000);
    bc.supply_sold = 9;
    bc.sol_reserves = 9700;
    let before = bc;
    // the net return is 4153
    assert_eq!(
        sell_to_curve(&gs, &lp, &mut bc, 9, 10_000, 4, 4154, 500),
        Err(LaunchpadError::MinSolNotMet)
    );
    assert_eq!(
        sell_to_curve(&gs, &lp, &mut bc, 9, 10_000, 4, 4152, 0),
        Err(LaunchpadError::SlippageExceeded)
    );
    // the vault holds less than the net return
    assert_eq!(
        sell_to_curve(&gs, &lp, &mut bc, 9, 4152, 4, 4000, 500),
        Err(LaunchpadError::InsufficientSolAmount)
    );
    // the reserves hold less than the gross return
    bc.sol_reserves = 4279;
    assert_eq!(
        sell_to_curve(&gs, &lp, &mut bc, 9, 10_000, 4, 4000, 500),
        Err(LaunchpadError::ArithmeticUnderflow)
    );
    bc.sol_reserves = 9700;
    assert_eq!(bc, before);
    // fees above the gross return
    let greedy = platform(6000, false);
    let lp = campaign(LaunchpadStatus::Active, 6000);
    assert_eq!(
        sell_to_curve(&greedy, &lp, &mut bc, 9, 10_000, 4, 0, 500),
        Err(LaunchpadError::ArithmeticUnderflow)
    );
}

#[test]
fn sell_to_zero_records_the_base_price() {
    let gs = platform(0, false);
    let lp = campaign(LaunchpadStatus::Active, 0);
    let mut bc = ledger(CurveType::Linear, 1000, 10, 1, 1_000_000);
    bc.supply_sold = 10;
    bc.sol_reserves = 10_500;
    bc.last_price = 1100;
    let receipt = sell_to_curve(&gs, &lp, &mut bc, 10, 10_500, 10, 10_500, 0).unwrap();
    assert_eq!(receipt.sol_return_gross, 10_500);
    assert_eq!(bc.supply_sold, 0);
    assert_eq!(bc.sol_reserves, 0);
    assert_eq!(bc.last_price, 1000);

    // on an exponential curve too: its price at zero is the base price
    let mut bc = ledger(CurveType::Exponential, 7, 2 * PRECISION, 1000, 1_000_000);
    bc.supply_sold = 1000;
    bc.sol_reserves = 10_500;
    bc.last_price = 14;
    let receipt = sell_to_curve(&gs, &lp, &mut bc, 1000, u64::MAX, 1000, 0, 10_000).unwrap();
    // (7 + 14) / 2 * 1000
    assert_eq!(receipt.sol_return_gross, 10_000);
    assert_eq!(receipt.new_price, 7);
    assert_eq!(bc.last_price, 7);
    assert_eq!(bc.supply_sold, 0);
}

#[test]
fn buy_then_sell_keeps_the_invariant() {
    let gs = platform(100, false);
    let lp = campaign(LaunchpadStatus::Active, 100);
    let mut bc = ledger(CurveType::Linear, 1000, 2, 1, 500);
    let mut held = 0u64;
    for round in 0..20u64 {
        if let Ok(receipt) = buy_on_curve(&gs, &lp, &mut bc, 50_000 + round * 1000, 0, 10_000) {
            held += receipt.tokens_minted;
        }
        assert!(bc.supply_sold <= bc.curve_params.max_supply);
        let back = held / 3;
        if let Ok(receipt) = sell_to_curve(&gs, &lp, &mut bc, held, u64::MAX, back, 0, 10_000) {
            held -= receipt.tokens_burned;
            assert_eq!(bc.last_price, 1000 + 2 * bc.supply_sold);
        }
        assert!(bc.supply_sold <= bc.curve_params.max_supply);
        assert_eq!(bc.supply_sold, held);
    }
}

#[test]
fn linear_round_trip_never_pays_out_more_than_was_paid_in() {
    let gs = platform(0, false);
    let lp = campaign(LaunchpadStatus::Active, 0);
    for (base, slope, amount) in [
        (1000u64, 10u64, 10_000u64),
        (1, 1, 12),
        (7, 3, 99_999),
        (1000, 0, 10_999),
        (13, 2, 123_456),
    ] {
        let mut bc = ledger(CurveType::Linear, base, slope, 1, u64::MAX);
        let bought = buy_on_curve(&gs, &lp, &mut bc, amount, 0, 10_000).unwrap();
        let sold = sell_to_curve(
            &gs,
            &lp,
            &mut bc,
            bought.tokens_minted,
            u64::MAX,
            bought.tokens_minted,
            0,
            10_000,
        );
        if let Ok(sold) = sold {
            assert!(sold.sol_return_gross <= bought.net_sol_amount);
            assert_eq!(bc.supply_sold, 0);
            assert_eq!(bc.sol_reserves, bought.net_sol_amount - sold.sol_return_gross);
        } else {
            // nothing was bought, so there is nothing to sell
            assert_eq!(bought.tokens_minted, 0);
        }
    }
}

#[test]
fn fees_within_their_bounds_never_eat_the_amount() {
    let gs = platform(1000, false);
    let lp = campaign(LaunchpadStatus::Active, 500);
    for amount in [1u64, 9, 10, 19, 20, 9_999, 10_000, 1_000_000_007] {
        let bc = ledger(CurveType::Linear, 1, 0, 1, u64::MAX);
        let quote = quote_buy(&gs, &lp, &bc, amount, 0, 10_000).unwrap();
        assert_eq!(quote.platform_fee, amount / 10);
        assert_eq!(quote.creator_fee, amount / 20);
        assert_eq!(quote.platform_fee + quote.creator_fee + quote.net_sol_amount, amount);
        assert_eq!(quote.tokens_minted, quote.net_sol_amount);
    }
}

#[test]
fn exponential_whole_span_costs_more_than_its_lots() {
    let gs = platform(0, false);
    let lp = campaign(LaunchpadStatus::Active, 0);
    // two lots cost 15000 + 30000; the span of both as one trapezoid is
    // (10 + 40) / 2 * 2000 = 50000, so the reserves cannot pay it back
    let mut bc = ledger(CurveType::Exponential, 10, 2 * PRECISION, 1000, 1_000_000);
    let bought = buy_on_curve(&gs, &lp, &mut bc, 45_000, 0, 10_000).unwrap();
    assert_eq!(bought.tokens_minted, 2000);
    let before = bc;
    assert_eq!(
        sell_to_curve(&gs, &lp, &mut bc, 2000, u64::MAX, 2000, 0, 10_000),
        Err(LaunchpadError::ArithmeticUnderflow)
    );
    assert_eq!(bc, before);
    // lot by lot the curve pays back what it took: 30000, then 15000
    let first = sell_to_curve(&gs, &lp, &mut bc, 2000, u64::MAX, 1000, 0, 10_000).unwrap();
    assert_eq!(first.sol_return_gross, 30_000);
    assert_eq!(bc.last_price, 20);
    let second = sell_to_curve(&gs, &lp, &mut bc, 1000, u64::MAX, 1000, 0, 10_000).unwrap();
    assert_eq!(second.sol_return_gross, 15_000);
    assert_eq!(bc.last_price, 10);
    assert_eq!(bc.sol_reserves, 0);
    assert_eq!(bc.supply_sold, 0);
}

#[test]
fn buy_then_sale_of_the_same_tokens_restores_the_recorded_price() {
    let gs = platform(0, false);
    let lp = campaign(LaunchpadStatus::Active, 0);
    for (family, base, slope, step, amount) in [
        (CurveType::Linear, 1000u64, 10u64, 1u64, 10_000u64),
        (CurveType::Exponential, 10, 2 * PRECISION, 1000, 15_000),
        (CurveType::Exponential, 1000, PRECISION + PRECISION / 2, 1000, 3_000_000),
    ] {
        let mut bc = ledger(family, base, slope, step, 1_000_000);
        bc.sol_reserves = 1_000_000_000;
        let before = bc.last_price;
        let bought = buy_on_curve(&gs, &lp, &mut bc, amount, 1, 10_000).unwrap();
        assert_eq!(
            Ok(bc.last_price),
            launchpad::curve::calculate_current_price(bc.supply_sold, &family, &bc.curve_params)
        );
        sell_to_curve(&gs, &lp, &mut bc, u64::MAX, u64::MAX, bought.tokens_minted, 0, 10_000)
            .unwrap();
        assert_eq!(bc.supply_sold, 0);
        assert_eq!(bc.last_price, before);
        assert_eq!(bc.last_price, base);
    }
}

#[test]
fn sale_on_a_curve_without_a_price_fails() {
    let gs = platform(0, false);
    let lp = campaign(LaunchpadStatus::Active, 0);
    // an exponential curve with a step of zero has no price at any supply
    let mut bc = ledger(CurveType::Exponential, 10, 2 * PRECISION, 0, 1_000_000);
    bc.supply_sold = 1000;
    let before = bc;
    assert_eq!(
        sell_to_curve(&gs, &lp, &mut bc, 1000, u64::MAX, 1000, 0, 10_000),
        Err(LaunchpadError::DivisionByZero)
    );
    assert_eq!(bc, before);
}
