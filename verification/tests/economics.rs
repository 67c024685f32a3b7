use casino::casino::Casino;
use casino::errors::CasinoError;
use casino::state::CasinoStats;

fn sample_casino() -> Casino {
    match casino::initialize_casino(1, 2, 3, 4, 200, 100, 10_000, 100, 1_000) {
        Ok(c) => c,
        Err(_) => panic!("admissible configuration was rejected"),
    }
}

#[test]
fn bet_in_bounds_is_accepted() {
    let c = sample_casino();
    assert!(c.validate_bet_amount(100).is_ok());
    assert!(c.validate_bet_amount(5_000).is_ok());
    assert!(c.validate_bet_amount(10_000).is_ok());
}

#[test]
fn bet_below_minimum_is_too_small() {
    let c = sample_casino();
    assert_eq!(c.validate_bet_amount(99), Err(CasinoError::BetTooSmall));
    assert_eq!(c.validate_bet_amount(0), Err(CasinoError::BetTooSmall));
}

#[test]
fn bet_above_maximum_is_too_large() {
    let c = sample_casino();
    assert_eq!(c.validate_bet_amount(10_001), Err(CasinoError::BetTooLarge));
    assert_eq!(c.validate_bet_amount(u64::MAX), Err(CasinoError::BetTooLarge));
}

#[test]
fn house_edge_and_treasury_fee_are_basis_points_of_the_stake() {
    let c = sample_casino();
    assert_eq!(c.calculate_house_edge(1_000), 20);
    assert_eq!(c.calculate_treasury_fee(1_000), 10);
    assert_eq!(c.calculate_house_edge(0), 0);
}

#[test]
fn max_payout_subtracts_both_fees() {
    let c = sample_casino();
    // gross 1.95x of 1000 = 1950, minus edge 20 and fee 10
    assert_eq!(c.calculate_max_payout(1_000, 19_500), 1_920);
}

#[test]
fn max_payout_floors_at_zero() {
    let c = sample_casino();
    // a losing multiplier yields gross 0; the subtractions must not underflow
    assert_eq!(c.calculate_max_payout(1_000, 0), 0);
}

#[test]
fn max_payout_never_panics_on_huge_inputs() {
    let c = sample_casino();
    // bet * multiplier far beyond u64: the computation saturates
    let r = c.calculate_max_payout(u64::MAX, u64::MAX);
    assert!(r <= u64::MAX);
    let r2 = c.calculate_max_payout(u64::MAX, 350_000);
    assert_eq!(r2, u64::MAX - c.calculate_house_edge(u64::MAX) - c.calculate_treasury_fee(u64::MAX));
}

#[test]
fn validate_configured_rates() {
    let c = sample_casino();
    assert!(c.validate_house_edge().is_ok());
    assert!(c.validate_treasury_fee().is_ok());
    let mut bad = sample_casino();
    bad.house_edge = 49;
    assert_eq!(bad.validate_house_edge(), Err(CasinoError::InvalidHouseEdge));
    bad.house_edge = 1_001;
    assert_eq!(bad.validate_house_edge(), Err(CasinoError::InvalidHouseEdge));
    bad.treasury_fee = 501;
    assert_eq!(bad.validate_treasury_fee(), Err(CasinoError::InvalidTreasuryFee));
}

#[test]
fn operational_needs_active_and_unpaused() {
    let mut c = sample_casino();
    assert!(c.is_operational());
    c.is_paused = true;
    assert!(!c.is_operational());
    c.is_paused = false;
    c.is_active = false;
    assert!(!c.is_operational());
}

#[test]
fn update_stats_accumulates_and_stamps() {
    let mut c = sample_casino();
    c.update_stats(1_000, 1_930, 20, 10, 777);
    assert_eq!(c.stats.total_games, 1);
    assert_eq!(c.stats.total_volume, 1_000);
    assert_eq!(c.stats.total_payouts, 1_930);
    assert_eq!(c.stats.house_edge_collected, 20);
    assert_eq!(c.stats.treasury_fees_collected, 10);
    assert_eq!(c.stats.total_profit, 20 - 1_930);
    assert_eq!(c.updated_at, 777);
    c.update_stats(500, 0, 10, 5, 778);
    assert_eq!(c.stats.total_games, 2);
    assert_eq!(c.stats.total_volume, 1_500);
    assert_eq!(c.stats.total_profit, 20 - 1_930 + 10);
}

#[test]
fn update_stats_saturates_instead_of_overflowing() {
    let mut c = sample_casino();
    c.stats = CasinoStats {
        total_games: u64::MAX,
        total_volume: u64::MAX - 1,
        total_profit: i64::MIN + 1,
        total_payouts: u64::MAX,
        active_players: 3,
        house_edge_collected: u64::MAX,
        treasury_fees_collected: u64::MAX,
    };
    c.update_stats(u64::MAX, u64::MAX, u64::MAX, u64::MAX, 9);
    assert_eq!(c.stats.total_games, u64::MAX);
    assert_eq!(c.stats.total_volume, u64::MAX);
    assert_eq!(c.stats.total_payouts, u64::MAX);
    assert_eq!(c.stats.house_edge_collected, u64::MAX);
    assert_eq!(c.stats.treasury_fees_collected, u64::MAX);
    // house take u64::MAX minus payout u64::MAX moves profit by zero
    assert_eq!(c.stats.total_profit, i64::MIN + 1);
    assert_eq!(c.stats.active_players, 3);
}

#[test]
fn profit_moves_negative_and_clamps() {
    let mut c = sample_casino();
    c.stats.total_profit = i64::MIN + 5;
    c.update_stats(10, 100, 0, 0, 1);
    assert_eq!(c.stats.total_profit, i64::MIN);
}

#[test]
fn ratios_are_zero_without_volume() {
    let c = sample_casino();
    assert_eq!(c.get_profit_margin(), 0);
    assert_eq!(c.get_payout_ratio(), 0);
}

#[test]
fn ratios_in_basis_points_of_volume() {
    let mut c = sample_casino();
    c.stats.total_volume = 1_000;
    c.stats.total_profit = 250;
    c.stats.total_payouts = 500;
    // 250/1000 = 2500 bp, 500/1000 = 5000 bp
    assert_eq!(c.get_profit_margin(), 2_500);
    assert_eq!(c.get_payout_ratio(), 5_000);
    c.stats.total_profit = -250;
    assert_eq!(c.get_profit_margin(), -2_500);
}
