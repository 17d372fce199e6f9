use launchpad::error::{ErrorKind, LaunchpadError};
use launchpad::lifecycle::{check_graduation_criteria, pause_launchpad};
use launchpad::state::{
    BondingCurveState, CurveParams, CurveType, GraduationCriteria, LaunchpadState,
    LaunchpadStatus, Pubkey,
};

fn campaign(status: LaunchpadStatus) -> LaunchpadState {
    LaunchpadState {
        mint: Pubkey::new_from_array([1; 32]),
        creator: Pubkey::new_from_array([2; 32]),
        sol_vault: Pubkey::new_from_array([3; 32]),
        token_vault: Pubkey::new_from_array([4; 32]),
        bonding_curve: Pubkey::new_from_array([5; 32]),
        status,
        creator_fee_bps: 200,
        total_supply: 1_000_000,
        graduation_criteria: GraduationCriteria {
            min_sol_raised: None,
            min_supply_sold: None,
            time_limit: None,
            custom_logic: None,
        },
        meteora_pool: None,
        created_at: 7,
        graduated_at: None,
        bump: 254,
    }
}

#[test]
fn test_graduation_criteria() {
    let curve_state = BondingCurveState {
        launchpad: Pubkey::default(),
        curve_type: CurveType::Linear,
        curve_params: CurveParams {
            base_price: 1000,
            slope: 10,
            step: 1,
            max_supply: 1000000,
            reserved: [0; 4],
        },
        supply_sold: 50000,
        sol_reserves: 5000000,
        virtual_sol_reserves: 0,
        virtual_token_reserves: 0,
        fee_collected: 100000,
        last_price: 1500,
        bump: 255,
    };

    // reserves threshold
    let criteria_sol = GraduationCriteria {
        min_sol_raised: Some(4000000),
        min_supply_sold: None,
        time_limit: None,
        custom_logic: None,
    };

    let meets_criteria = check_graduation_criteria(&curve_state, &criteria_sol, 0);
    assert!(meets_criteria);

    // supply threshold
    let criteria_supply = GraduationCriteria {
        min_sol_raised: None,
        min_supply_sold: Some(60000),
        time_limit: None,
        custom_logic: None,
    };

    let meets_criteria = check_graduation_criteria(&curve_state, &criteria_supply, 0);
    assert!(!meets_criteria);

    // time threshold
    let criteria_time = GraduationCriteria {
        min_sol_raised: None,
        min_supply_sold: None,
        time_limit: Some(1000),
        custom_logic: None,
    };

    let meets_criteria = check_graduation_criteria(&curve_state, &criteria_time, 1500);
    assert!(meets_criteria);
}

fn ledger(sol_reserves: u64, supply_sold: u64) -> BondingCurveState {
    BondingCurveState {
        launchpad: Pubkey::default(),
        curve_type: CurveType::Linear,
        curve_params: CurveParams {
            base_price: 1000,
            slope: 10,
            step: 1,
            max_supply: 1000000,
            reserved: [0; 4],
        },
        supply_sold,
        sol_reserves,
        virtual_sol_reserves: 0,
        virtual_token_reserves: 0,
        fee_collected: 0,
        last_price: 1000,
        bump: 255,
    }
}

#[test]
fn absent_criteria_are_always_met() {
    let none = GraduationCriteria {
        min_sol_raised: None,
        min_supply_sold: None,
        time_limit: None,
        custom_logic: Some(Pubkey::new_from_array([9; 32])),
    };
    assert!(check_graduation_criteria(&ledger(0, 0), &none, i64::MIN));
}

#[test]
fn present_criteria_must_all_hold() {
    let all = GraduationCriteria {
        min_sol_raised: Some(100),
        min_supply_sold: Some(10),
        time_limit: Some(1000),
        custom_logic: None,
    };
    assert!(check_graduation_criteria(&ledger(100, 10), &all, 1000));
    assert!(!check_graduation_criteria(&ledger(99, 10), &all, 1000));
    assert!(!check_graduation_criteria(&ledger(100, 9), &all, 1000));
    assert!(!check_graduation_criteria(&ledger(100, 10), &all, 999));
    assert!(check_graduation_criteria(&ledger(u64::MAX, u64::MAX), &all, i64::MAX));
}

#[test]
fn pause_toggles_between_active_and_paused() {
    let mut lp = campaign(LaunchpadStatus::Active);
    let start = lp;
    assert_eq!(pause_launchpad(&mut lp), Ok(()));
    assert_eq!(lp.status, LaunchpadStatus::Paused);
    assert_eq!(lp.creator, start.creator);
    assert_eq!(lp.created_at, 7);
    assert_eq!(pause_launchpad(&mut lp), Ok(()));
    assert_eq!(lp, start);
}

#[test]
fn pause_twice_from_paused_returns_to_paused() {
    let mut lp = campaign(LaunchpadStatus::Paused);
    let start = lp;
    assert_eq!(pause_launchpad(&mut lp), Ok(()));
    assert_eq!(lp.status, LaunchpadStatus::Active);
    assert_eq!(pause_launchpad(&mut lp), Ok(()));
    assert_eq!(lp, start);
}

#[test]
fn graduated_campaign_refuses_the_toggle() {
    let mut lp = campaign(LaunchpadStatus::Graduated);
    let start = lp;
    let err = pause_launchpad(&mut lp).unwrap_err();
    assert_eq!(err, LaunchpadError::LaunchpadAlreadyGraduated);
    assert_eq!(err.kind(), ErrorKind::State);
    assert_eq!(lp, start);
}
