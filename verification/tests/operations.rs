use casino::casino::Casino;
use casino::errors::CasinoError;
use casino::state::{GameStatus, GameType, TournamentStatus};

// SHA-256 of "abc", hex-encoded.
const ABC_HASH: &str = "ba7816bf8f01cfea414140de5dae2223b00361a396177a9cb410ff61f20015ad";

fn operational_casino() -> Casino {
    casino::initialize_casino(1, 2, 3, 4, 200, 100, 1_000_000, 100, 50).unwrap()
}

fn open_coinflip(c: &Casino, prediction: u8) -> casino::game::Game {
    casino::create_game(
        c,
        99,
        7,
        GameType::CoinFlip,
        1_000,
        vec![prediction],
        b"xyz".to_vec(),
        ABC_HASH.as_bytes().to_vec(),
        1,
        11,
        100,
    )
    .unwrap()
}

#[test]
fn initialize_casino_validates_configuration() {
    assert_eq!(
        casino::initialize_casino(1, 2, 3, 4, 49, 100, 1_000, 100, 0).unwrap_err(),
        CasinoError::InvalidHouseEdge
    );
    assert_eq!(
        casino::initialize_casino(1, 2, 3, 4, 1_001, 100, 1_000, 100, 0).unwrap_err(),
        CasinoError::InvalidHouseEdge
    );
    assert_eq!(
        casino::initialize_casino(1, 2, 3, 4, 200, 100, 1_000, 501, 0).unwrap_err(),
        CasinoError::InvalidTreasuryFee
    );
    assert_eq!(
        casino::initialize_casino(1, 2, 3, 4, 200, 1_000, 100, 100, 0).unwrap_err(),
        CasinoError::InvalidConfiguration
    );
    let c = operational_casino();
    assert!(c.is_active);
    assert!(!c.is_paused);
    assert_eq!(c.stats.total_games, 0);
    assert_eq!(c.created_at, 50);
}

#[test]
fn create_game_checks_operation_and_bounds() {
    let mut c = operational_casino();
    c.is_active = false;
    let r = casino::create_game(
        &c,
        99,
        7,
        GameType::CoinFlip,
        1_000,
        vec![0],
        Vec::new(),
        Vec::new(),
        1,
        11,
        100,
    );
    assert_eq!(r.unwrap_err(), CasinoError::CasinoNotActive);
    c.is_active = true;
    c.is_paused = true;
    let r = casino::create_game(
        &c,
        99,
        7,
        GameType::CoinFlip,
        1_000,
        vec![0],
        Vec::new(),
        Vec::new(),
        1,
        11,
        100,
    );
    assert_eq!(r.unwrap_err(), CasinoError::CasinoPaused);
    c.is_paused = false;
    let r = casino::create_game(
        &c,
        99,
        7,
        GameType::CoinFlip,
        99,
        vec![0],
        Vec::new(),
        Vec::new(),
        1,
        11,
        100,
    );
    assert_eq!(r.unwrap_err(), CasinoError::BetTooSmall);
    let r = casino::create_game(
        &c,
        99,
        7,
        GameType::CoinFlip,
        1_000_001,
        vec![0],
        Vec::new(),
        Vec::new(),
        1,
        11,
        100,
    );
    assert_eq!(r.unwrap_err(), CasinoError::BetTooLarge);
    let r = casino::create_game(
        &c,
        99,
        7,
        GameType::CoinFlip,
        1_000,
        vec![0; 257],
        Vec::new(),
        Vec::new(),
        1,
        11,
        100,
    );
    assert_eq!(r.unwrap_err(), CasinoError::InvalidPrediction);
    let r = casino::create_game(
        &c,
        99,
        7,
        GameType::CoinFlip,
        1_000,
        vec![0],
        Vec::new(),
        Vec::new(),
        1,
        11,
        i64::MAX,
    );
    assert_eq!(r.unwrap_err(), CasinoError::InvalidTimestamp);
}

#[test]
fn create_game_commits_and_schedules_expiry() {
    let c = operational_casino();
    let g = open_coinflip(&c, 0);
    assert_eq!(g.status, GameStatus::Created);
    assert_eq!(g.created_at, 100);
    assert_eq!(g.expires_at, 3_700);
    assert_eq!(g.provable_fair.server_seed_hash, ABC_HASH.as_bytes().to_vec());
    assert_eq!(g.provable_fair.nonce, 1);
    assert!(g.provable_fair.server_seed.is_none());
    assert!(g.result.is_none());
}

#[test]
fn resolve_game_settles_a_winning_coinflip() {
    let mut c = operational_casino();
    // SHA-256("abc-xyz-1") first byte 63: coin flip outcome 1
    let mut g = open_coinflip(&c, 1);
    let res = casino::resolve_game(&mut g, &mut c, b"abc".to_vec(), 1, 200).unwrap();
    assert_eq!(res.outcome, vec![1]);
    assert_eq!(res.multiplier, 19_500);
    assert_eq!(res.house_edge_taken, 20);
    assert_eq!(res.treasury_fee_taken, 10);
    assert_eq!(res.payout, 1_930);
    assert_eq!(g.status, GameStatus::Resolved);
    assert_eq!(g.resolved_at, Some(200));
    assert_eq!(g.provable_fair.server_seed, Some(b"abc".to_vec()));
    assert_eq!(g.result.unwrap().payout, 1_930);
    assert_eq!(c.stats.total_games, 1);
    assert_eq!(c.stats.total_volume, 1_000);
    assert_eq!(c.stats.total_payouts, 1_930);
    assert_eq!(c.stats.house_edge_collected, 20);
    assert_eq!(c.stats.treasury_fees_collected, 10);
    assert_eq!(c.stats.total_profit, 20 - 1_930);
    assert_eq!(c.updated_at, 200);
}

#[test]
fn resolve_game_settles_a_losing_coinflip() {
    let mut c = operational_casino();
    let mut g = open_coinflip(&c, 0);
    let res = casino::resolve_game(&mut g, &mut c, b"abc".to_vec(), 1, 200).unwrap();
    assert_eq!(res.multiplier, 0);
    assert_eq!(res.payout, 0);
    assert_eq!(res.house_edge_taken, 20);
    assert_eq!(g.status, GameStatus::Resolved);
    assert_eq!(c.stats.total_profit, 20);
}

#[test]
fn resolve_game_rejects_a_wrong_seed_and_mutates_nothing() {
    let mut c = operational_casino();
    let mut g = open_coinflip(&c, 1);
    let r = casino::resolve_game(&mut g, &mut c, b"abd".to_vec(), 1, 200);
    assert_eq!(r.unwrap_err(), CasinoError::ProvableFairnessVerificationFailed);
    assert_eq!(g.status, GameStatus::Created);
    assert!(g.result.is_none());
    assert!(g.provable_fair.server_seed.is_none());
    assert_eq!(c.stats.total_games, 0);
}

#[test]
fn resolve_game_rejects_a_wrong_nonce() {
    let mut c = operational_casino();
    let mut g = open_coinflip(&c, 1);
    let r = casino::resolve_game(&mut g, &mut c, b"abc".to_vec(), 2, 200);
    assert_eq!(r.unwrap_err(), CasinoError::InvalidNonce);
    assert_eq!(g.status, GameStatus::Created);
}

#[test]
fn resolve_game_rejects_an_expired_game() {
    let mut c = operational_casino();
    let mut g = open_coinflip(&c, 1);
    let r = casino::resolve_game(&mut g, &mut c, b"abc".to_vec(), 1, 3_701);
    assert_eq!(r.unwrap_err(), CasinoError::CannotResolveGame);
}

#[test]
fn resolve_game_rejects_an_empty_prediction() {
    let mut c = operational_casino();
    let mut g = open_coinflip(&c, 1);
    g.prediction = Vec::new();
    let r = casino::resolve_game(&mut g, &mut c, b"abc".to_vec(), 1, 200);
    assert_eq!(r.unwrap_err(), CasinoError::InvalidPrediction);
}

#[test]
fn resolved_game_claims_through_the_operation() {
    let mut c = operational_casino();
    let mut g = open_coinflip(&c, 1);
    casino::resolve_game(&mut g, &mut c, b"abc".to_vec(), 1, 200).unwrap();
    assert_eq!(casino::claim_winnings(&mut g, 300), Ok(1_930));
    assert_eq!(g.status, GameStatus::Claimed);
    assert_eq!(casino::claim_winnings(&mut g, 400), Err(CasinoError::CannotClaimWinnings));
}

#[test]
fn config_update_is_authority_only() {
    let mut c = operational_casino();
    let r = casino::update_casino_config(&mut c, 2, Some(300), None, None, None, 60);
    assert_eq!(r.unwrap_err(), CasinoError::Unauthorized);
    assert_eq!(c.house_edge, 200);
}

#[test]
fn config_update_applies_requested_fields() {
    let mut c = operational_casino();
    let r = casino::update_casino_config(&mut c, 1, Some(300), Some(200), None, Some(false), 60);
    assert!(r.is_ok());
    assert_eq!(c.house_edge, 300);
    assert_eq!(c.min_bet, 200);
    assert_eq!(c.max_bet, 1_000_000);
    assert!(!c.is_active);
    assert_eq!(c.updated_at, 60);
}

#[test]
fn config_update_validates_the_result() {
    let mut c = operational_casino();
    let r = casino::update_casino_config(&mut c, 1, Some(1_200), None, None, None, 60);
    assert_eq!(r.unwrap_err(), CasinoError::InvalidHouseEdge);
    let r = casino::update_casino_config(&mut c, 1, None, Some(10), Some(5), None, 60);
    assert_eq!(r.unwrap_err(), CasinoError::InvalidConfiguration);
    assert_eq!(c.min_bet, 100);
}

#[test]
fn emergency_pause_stops_new_games() {
    let mut c = operational_casino();
    assert_eq!(casino::emergency_pause(&mut c, 2, 70).unwrap_err(), CasinoError::Unauthorized);
    assert!(casino::emergency_pause(&mut c, 1, 70).is_ok());
    assert!(c.is_paused);
    let r = casino::create_game(
        &c,
        99,
        7,
        GameType::CoinFlip,
        1_000,
        vec![0],
        Vec::new(),
        Vec::new(),
        1,
        11,
        100,
    );
    assert_eq!(r.unwrap_err(), CasinoError::CasinoPaused);
}

#[test]
fn treasury_withdrawal_checks_authority_and_balance() {
    let c = operational_casino();
    assert_eq!(
        casino::withdraw_treasury(&c, 2, 10, 100).unwrap_err(),
        CasinoError::Unauthorized
    );
    assert_eq!(
        casino::withdraw_treasury(&c, 1, 101, 100).unwrap_err(),
        CasinoError::InsufficientVaultFunds
    );
    assert_eq!(casino::withdraw_treasury(&c, 1, 100, 100), Ok(100));
}

#[test]
fn player_profile_starts_at_zero_and_accumulates() {
    let mut p = casino::initialize_player();
    assert_eq!(p.games_played, 0);
    assert_eq!(p.total_wagered, 0);
    assert_eq!(p.total_won, 0);
    casino::update_player_stats(&mut p, 3, 5_000, 2_000);
    assert_eq!(p.games_played, 3);
    assert_eq!(p.total_wagered, 5_000);
    assert_eq!(p.total_won, 2_000);
    casino::update_player_stats(&mut p, u64::MAX, u64::MAX, u64::MAX);
    assert_eq!(p.games_played, u64::MAX);
    assert_eq!(p.total_wagered, u64::MAX);
    assert_eq!(p.total_won, u64::MAX);
}

#[test]
fn tournament_creation_validates_window_and_capacity() {
    assert_eq!(
        casino::create_tournament(1, 50, 0, 1_000, 100).unwrap_err(),
        CasinoError::InvalidConfiguration
    );
    assert_eq!(
        casino::create_tournament(1, 50, 8, 1_000, 0).unwrap_err(),
        CasinoError::InvalidConfiguration
    );
    assert_eq!(
        casino::create_tournament(1, 50, 8, 1_000, 86_400 * 7 + 1).unwrap_err(),
        CasinoError::InvalidConfiguration
    );
    let t = casino::create_tournament(1, 50, 8, 1_000, 3_600).unwrap();
    assert_eq!(t.status, TournamentStatus::Created);
    assert!(t.players.is_empty());
    assert_eq!(t.prize_pool, 0);
}

#[test]
fn tournament_join_rules() {
    let mut t = casino::create_tournament(1, 50, 2, 1_000, 3_600).unwrap();
    assert!(casino::join_tournament(&mut t, 10, 1_500).is_ok());
    assert_eq!(t.prize_pool, 50);
    assert_eq!(
        casino::join_tournament(&mut t, 10, 1_600).unwrap_err(),
        CasinoError::AlreadyJoinedTournament
    );
    assert!(casino::join_tournament(&mut t, 11, 1_600).is_ok());
    assert_eq!(
        casino::join_tournament(&mut t, 12, 1_700).unwrap_err(),
        CasinoError::TournamentFull
    );
    let mut late = casino::create_tournament(1, 50, 2, 1_000, 3_600).unwrap();
    assert_eq!(
        casino::join_tournament(&mut late, 10, 4_600).unwrap_err(),
        CasinoError::TournamentEnded
    );
}

#[test]
fn tournament_finalizes_once_after_the_window() {
    let mut t = casino::create_tournament(1, 50, 2, 1_000, 3_600).unwrap();
    assert_eq!(
        casino::finalize_tournament(&mut t, 4_599).unwrap_err(),
        CasinoError::CannotFinalizeTournament
    );
    assert!(casino::finalize_tournament(&mut t, 4_600).is_ok());
    assert_eq!(t.status, TournamentStatus::Finished);
    assert_eq!(
        casino::finalize_tournament(&mut t, 4_700).unwrap_err(),
        CasinoError::CannotFinalizeTournament
    );
    assert_eq!(
        casino::join_tournament(&mut t, 10, 1_500).unwrap_err(),
        CasinoError::TournamentEnded
    );
}
