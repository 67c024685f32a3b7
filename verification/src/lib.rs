//! A wagering engine for a multi-game casino: bets are validated against
//! casino-wide bounds, bound to a commit-reveal fairness commitment, resolved
//! deterministically once the committed secret is revealed, and paid out under
//! house-edge and treasury-fee economics, with aggregate statistics kept by
//! saturating arithmetic.
//!
//! The operations in this root module are the engine's external interface.
//! Each one is a pure, synchronous state transition: every check is evaluated
//! before any mutation, and on failure the specific condition is reported and
//! all state is left untouched. Timestamps come from the caller's clock, and
//! fund custody is the caller's collaborator: operations only compute and
//! authorize amounts.

pub mod casino;
pub mod errors;
pub mod fairness;
pub mod game;
pub mod state;
pub mod tournament;

use vstd::prelude::*;

verus! {

use crate::casino::{casino_after_stats, lemma_bp_fraction_bound, Casino};
use crate::errors::CasinoError;
use crate::fairness::{hex_of, sha256_of};
use crate::game::{
    game_outcome, gross_payout_of, house_edge_of, multiplier_of, payout_inputs_ok, Game,
};
use crate::state::{
    CasinoStats, GameResult, GameStatus, GameType, PlayerStats, ProvableFairData,
    TournamentStatus, BASIS_POINTS, MAX_GAME_DURATION, MAX_HOUSE_EDGE, MAX_TOURNAMENT_DURATION,
    MAX_TREASURY_FEE, MIN_HOUSE_EDGE, sat_u64,
};
use crate::tournament::Tournament;

/// Sets up a casino: the configuration must be admissible (house edge in
/// `[MIN_HOUSE_EDGE, MAX_HOUSE_EDGE]`, treasury fee at most
/// `MAX_TREASURY_FEE`, bounds ordered), and the casino starts active,
/// unpaused, with zeroed statistics.
pub fn initialize_casino(
    authority: u64,
    token_mint: u64,
    treasury: u64,
    vault: u64,
    house_edge: u16,
    min_bet: u64,
    max_bet: u64,
    treasury_fee: u16,
    now: i64,
) -> (r: Result<Casino, CasinoError>)
    ensures
        !(MIN_HOUSE_EDGE <= house_edge <= MAX_HOUSE_EDGE) ==> r == Err::<Casino, CasinoError>(
            CasinoError::InvalidHouseEdge,
        ),
        MIN_HOUSE_EDGE <= house_edge <= MAX_HOUSE_EDGE && treasury_fee > MAX_TREASURY_FEE ==> r
            == Err::<Casino, CasinoError>(CasinoError::InvalidTreasuryFee),
        MIN_HOUSE_EDGE <= house_edge <= MAX_HOUSE_EDGE && treasury_fee <= MAX_TREASURY_FEE
            && min_bet > max_bet ==> r == Err::<Casino, CasinoError>(
            CasinoError::InvalidConfiguration,
        ),
        r is Ok <==> MIN_HOUSE_EDGE <= house_edge <= MAX_HOUSE_EDGE && treasury_fee
            <= MAX_TREASURY_FEE && min_bet <= max_bet,
        r matches Ok(c) ==> c == (Casino {
            authority,
            token_mint,
            treasury,
            vault,
            house_edge,
            min_bet,
            max_bet,
            treasury_fee,
            is_active: true,
            is_paused: false,
            stats: CasinoStats {
                total_games: 0,
                total_volume: 0,
                total_profit: 0,
                total_payouts: 0,
                active_players: 0,
                house_edge_collected: 0,
                treasury_fees_collected: 0,
            },
            created_at: now,
            updated_at: now,
        }) && c.wf(),
{
    if !(house_edge >= MIN_HOUSE_EDGE && house_edge <= MAX_HOUSE_EDGE) {
        return Err(CasinoError::InvalidHouseEdge);
    }
    if treasury_fee > MAX_TREASURY_FEE {
        return Err(CasinoError::InvalidTreasuryFee);
    }
    if min_bet > max_bet {
        return Err(CasinoError::InvalidConfiguration);
    }
    Ok(
        Casino {
            authority,
            token_mint,
            treasury,
            vault,
            house_edge,
            min_bet,
            max_bet,
            treasury_fee,
            is_active: true,
            is_paused: false,
            stats: CasinoStats {
                total_games: 0,
                total_volume: 0,
                total_profit: 0,
                total_payouts: 0,
                active_players: 0,
                house_edge_collected: 0,
                treasury_fees_collected: 0,
            },
            created_at: now,
            updated_at: now,
        },
    )
}

/// Opens a wager: the casino must be operational, the bet within bounds,
/// the prediction at most 256 bytes, and the expiry computable. The game
/// starts in Created with the fairness commitment stored and nothing
/// revealed.
pub fn create_game(
    casino: &Casino,
    casino_id: u64,
    player: u64,
    game_type: GameType,
    bet_amount: u64,
    prediction: Vec<u8>,
    client_seed: Vec<u8>,
    server_seed_hash: Vec<u8>,
    nonce: u64,
    session_id: u64,
    now: i64,
) -> (r: Result<Game, CasinoError>)
    ensures
        !casino.is_active ==> r == Err::<Game, CasinoError>(CasinoError::CasinoNotActive),
        casino.is_active && casino.is_paused ==> r == Err::<Game, CasinoError>(
            CasinoError::CasinoPaused,
        ),
        casino.is_active && !casino.is_paused && bet_amount < casino.min_bet ==> r == Err::<
            Game,
            CasinoError,
        >(CasinoError::BetTooSmall),
        casino.is_active && !casino.is_paused && casino.min_bet <= bet_amount && bet_amount
            > casino.max_bet ==> r == Err::<Game, CasinoError>(CasinoError::BetTooLarge),
        casino.is_active && !casino.is_paused && casino.min_bet <= bet_amount <= casino.max_bet
            && prediction@.len() > 256 ==> r == Err::<Game, CasinoError>(
            CasinoError::InvalidPrediction,
        ),
        casino.is_active && !casino.is_paused && casino.min_bet <= bet_amount <= casino.max_bet
            && prediction@.len() <= 256 && now > i64::MAX - MAX_GAME_DURATION ==> r == Err::<
            Game,
            CasinoError,
        >(CasinoError::InvalidTimestamp),
        r is Ok <==> casino.is_active && !casino.is_paused && casino.min_bet <= bet_amount
            <= casino.max_bet && prediction@.len() <= 256 && now <= i64::MAX - MAX_GAME_DURATION,
        r matches Ok(g) ==> {
            &&& g.player == player
            &&& g.casino == casino_id
            &&& g.game_type == game_type
            &&& g.bet_amount == bet_amount
            &&& g.prediction@ == prediction@
            &&& g.result is None
            &&& g.provable_fair.server_seed_hash@ == server_seed_hash@
            &&& g.provable_fair.client_seed@ == client_seed@
            &&& g.provable_fair.nonce == nonce
            &&& g.provable_fair.server_seed is None
            &&& g.status == GameStatus::Created
            &&& g.created_at == now
            &&& g.resolved_at is None
            &&& g.claimed_at is None
            &&& g.expires_at == now + MAX_GAME_DURATION
            &&& g.session_id == session_id
            &&& g.status_fields_consistent()
        },
{
    if !casino.is_active {
        return Err(CasinoError::CasinoNotActive);
    }
    if casino.is_paused {
        return Err(CasinoError::CasinoPaused);
    }
    match casino.validate_bet_amount(bet_amount) {
        Ok(_) => (),
        Err(e) => {
            return Err(e);
        },
    }
    if prediction.len() > 256 {
        return Err(CasinoError::InvalidPrediction);
    }
    if now > i64::MAX - MAX_GAME_DURATION {
        return Err(CasinoError::InvalidTimestamp);
    }
    Ok(
        Game {
            player,
            casino: casino_id,
            game_type,
            bet_amount,
            prediction,
            result: None,
            provable_fair: ProvableFairData {
                server_seed_hash,
                client_seed,
                nonce,
                server_seed: None,
            },
            status: GameStatus::Created,
            created_at: now,
            resolved_at: None,
            claimed_at: None,
            expires_at: now + MAX_GAME_DURATION,
            session_id,
        },
    )
}

/// The revealed seed hashes (hex-encoded) to exactly the stored commitment.
pub open spec fn seed_matches(g: Game, server_seed: Seq<u8>) -> bool {
    hex_of(sha256_of(server_seed)) == g.provable_fair.server_seed_hash@
}

/// The prediction bytes a game type needs at resolution: one byte for coin
/// flip and roulette, two for dice, none for the rest.
pub open spec fn prediction_usable(t: GameType, prediction: Seq<u8>) -> bool {
    match t {
        GameType::CoinFlip | GameType::Roulette => prediction.len() >= 1,
        GameType::DiceRoll => prediction.len() >= 2,
        _ => true,
    }
}

/// The outcome bytes of `g` under the revealed seed.
pub open spec fn outcome_for(g: Game, server_seed: Seq<u8>) -> Seq<u8> {
    game_outcome(g.game_type, server_seed, g.provable_fair.client_seed@, g.provable_fair.nonce)
}

/// What the result of resolving `g` under `c` and the revealed seed holds:
/// the derived outcome bytes, the payout-table multiplier, the net payout
/// (gross winnings minus house edge, floored at zero), and the two fees.
pub open spec fn result_matches(res: GameResult, g: Game, c: Casino, server_seed: Seq<u8>) -> bool {
    let outc = outcome_for(g, server_seed);
    &&& res.outcome@ == outc
    &&& res.multiplier == multiplier_of(g.game_type, g.prediction@, outc)
    &&& res.payout == sat_u64(
        gross_payout_of(g.bet_amount, g.game_type, g.prediction@, outc) - house_edge_of(
            g.bet_amount,
            c.house_edge,
        ),
    )
    &&& res.house_edge_taken == house_edge_of(g.bet_amount, c.house_edge)
    &&& res.treasury_fee_taken == c.treasury_fee_amount(g.bet_amount)
}

/// Every condition under which resolution succeeds: a still-resolvable
/// game, the committed nonce, a seed matching the commitment, a usable
/// prediction, and a gross payout that fits.
pub open spec fn resolve_accepts(
    g: Game,
    c: Casino,
    server_seed: Seq<u8>,
    nonce: u64,
    now: i64,
) -> bool {
    &&& g.can_resolve_spec(now)
    &&& nonce == g.provable_fair.nonce
    &&& seed_matches(g, server_seed)
    &&& prediction_usable(g.game_type, g.prediction@)
    &&& gross_payout_of(g.bet_amount, g.game_type, g.prediction@, outcome_for(g, server_seed))
        <= u64::MAX
}

/// Settles a game from a revealed server seed: checks the state machine,
/// the nonce, and the fairness commitment, derives the outcome, computes
/// the payout, stores the result and the revealed seed on the game, and
/// folds the settlement into the casino statistics — all checks before any
/// mutation, so a failure leaves both records untouched.
pub fn resolve_game(
    game: &mut Game,
    casino: &mut Casino,
    server_seed: Vec<u8>,
    nonce: u64,
    now: i64,
) -> (r: Result<GameResult, CasinoError>)
    requires
        old(casino).wf(),
    ensures
        r is Ok <==> resolve_accepts(*old(game), *old(casino), server_seed@, nonce, now),
        !old(game).can_resolve_spec(now) ==> r == Err::<GameResult, CasinoError>(
            CasinoError::CannotResolveGame,
        ),
        old(game).can_resolve_spec(now) && nonce != old(game).provable_fair.nonce ==> r == Err::<
            GameResult,
            CasinoError,
        >(CasinoError::InvalidNonce),
        old(game).can_resolve_spec(now) && nonce == old(game).provable_fair.nonce
            && !seed_matches(*old(game), server_seed@) ==> r == Err::<GameResult, CasinoError>(
            CasinoError::ProvableFairnessVerificationFailed,
        ),
        old(game).can_resolve_spec(now) && nonce == old(game).provable_fair.nonce && seed_matches(
            *old(game),
            server_seed@,
        ) && !prediction_usable(old(game).game_type, old(game).prediction@) ==> r == Err::<
            GameResult,
            CasinoError,
        >(CasinoError::InvalidPrediction),
        old(game).can_resolve_spec(now) && nonce == old(game).provable_fair.nonce && seed_matches(
            *old(game),
            server_seed@,
        ) && prediction_usable(old(game).game_type, old(game).prediction@) && gross_payout_of(
            old(game).bet_amount,
            old(game).game_type,
            old(game).prediction@,
            outcome_for(*old(game), server_seed@),
        ) > u64::MAX ==> r == Err::<GameResult, CasinoError>(CasinoError::ArithmeticOverflow),
        r is Err ==> *final(game) == *old(game) && *final(casino) == *old(casino),
        old(game).status_fields_consistent() ==> final(game).status_fields_consistent(),
        r matches Ok(res) ==> {
            &&& result_matches(res, *old(game), *old(casino), server_seed@)
            &&& final(game).status == GameStatus::Resolved
            &&& final(game).resolved_at == Some(now)
            &&& (match final(game).result {
                Some(st) => result_matches(st, *old(game), *old(casino), server_seed@),
                None => false,
            })
            &&& (match final(game).provable_fair.server_seed {
                Some(s) => s@ == server_seed@,
                None => false,
            })
            &&& final(game).provable_fair.server_seed_hash == old(
                game,
            ).provable_fair.server_seed_hash
            &&& final(game).provable_fair.client_seed == old(game).provable_fair.client_seed
            &&& final(game).provable_fair.nonce == old(game).provable_fair.nonce
            &&& final(game).player == old(game).player
            &&& final(game).casino == old(game).casino
            &&& final(game).game_type == old(game).game_type
            &&& final(game).bet_amount == old(game).bet_amount
            &&& final(game).prediction == old(game).prediction
            &&& final(game).claimed_at == old(game).claimed_at
            &&& final(game).created_at == old(game).created_at
            &&& final(game).expires_at == old(game).expires_at
            &&& final(game).session_id == old(game).session_id
            &&& *final(casino) == casino_after_stats(
                *old(casino),
                old(game).bet_amount,
                res.payout,
                res.house_edge_taken,
                res.treasury_fee_taken,
                now,
            )
        },
{
    if !game.can_be_resolved(now) {
        return Err(CasinoError::CannotResolveGame);
    }
    if nonce != game.provable_fair.nonce {
        return Err(CasinoError::InvalidNonce);
    }
    if !game.verify_provable_fairness(server_seed.as_slice()) {
        return Err(CasinoError::ProvableFairnessVerificationFailed);
    }
    let pred_ok: bool = match game.game_type {
        GameType::CoinFlip | GameType::Roulette => game.prediction.len() >= 1,
        GameType::DiceRoll => game.prediction.len() >= 2,
        _ => true,
    };
    if !pred_ok {
        return Err(CasinoError::InvalidPrediction);
    }
    let outcome = game.generate_game_outcome(server_seed.as_slice());
    proof {
        assert(payout_inputs_ok(game.game_type, game.prediction@, outcome@));
        lemma_bp_fraction_bound(
            game.bet_amount as int,
            casino.house_edge as int,
            BASIS_POINTS as int,
        );
    }
    let mut result = match game.calculate_payout(outcome.as_slice(), casino.house_edge) {
        Ok(res) => res,
        Err(e) => {
            return Err(e);
        },
    };
    result.treasury_fee_taken = casino.calculate_treasury_fee(game.bet_amount);
    let stored = result.clone();
    game.provable_fair.server_seed = Some(server_seed);
    match game.resolve_game(stored, now) {
        Ok(_) => (),
        Err(e) => {
            return Err(e);
        },
    }
    casino.update_stats(
        game.bet_amount,
        result.payout,
        result.house_edge_taken,
        result.treasury_fee_taken,
        now,
    );
    Ok(result)
}

/// Pays out a resolved game exactly once; the caller transfers the returned
/// amount from the vault only after this transition succeeds.
pub fn claim_winnings(game: &mut Game, now: i64) -> (r: Result<u64, CasinoError>)
    ensures
        old(game).status_fields_consistent() ==> final(game).status_fields_consistent(),
        r is Ok <==> old(game).can_claim_spec(),
        old(game).can_claim_spec() ==> r == Ok::<u64, CasinoError>(old(game).payout_spec())
            && *final(game) == (Game {
            status: GameStatus::Claimed,
            claimed_at: Some(now),
            ..*old(game)
        }),
        !old(game).can_claim_spec() ==> r == Err::<u64, CasinoError>(
            CasinoError::CannotClaimWinnings,
        ) && *final(game) == *old(game),
{
    game.claim_winnings(now)
}

/// Admin update of the casino configuration; only the authority may call,
/// and the updated configuration must remain admissible.
pub fn update_casino_config(
    casino: &mut Casino,
    caller: u64,
    house_edge: Option<u16>,
    min_bet: Option<u64>,
    max_bet: Option<u64>,
    is_active: Option<bool>,
    now: i64,
) -> (r: Result<(), CasinoError>)
    ensures
        ({
            let new_edge = match house_edge {
                Some(e) => e,
                None => old(casino).house_edge,
            };
            let new_min = match min_bet {
                Some(m) => m,
                None => old(casino).min_bet,
            };
            let new_max = match max_bet {
                Some(m) => m,
                None => old(casino).max_bet,
            };
            let new_active = match is_active {
                Some(a) => a,
                None => old(casino).is_active,
            };
            &&& (caller != old(casino).authority ==> r == Err::<(), CasinoError>(
                CasinoError::Unauthorized,
            ) && *final(casino) == *old(casino))
            &&& (caller == old(casino).authority && !(MIN_HOUSE_EDGE <= new_edge
                <= MAX_HOUSE_EDGE) ==> r == Err::<(), CasinoError>(CasinoError::InvalidHouseEdge)
                && *final(casino) == *old(casino))
            &&& (caller == old(casino).authority && MIN_HOUSE_EDGE <= new_edge <= MAX_HOUSE_EDGE
                && new_min > new_max ==> r == Err::<(), CasinoError>(
                CasinoError::InvalidConfiguration,
            ) && *final(casino) == *old(casino))
            &&& (r is Ok <==> caller == old(casino).authority && MIN_HOUSE_EDGE <= new_edge
                <= MAX_HOUSE_EDGE && new_min <= new_max)
            &&& (r is Ok ==> *final(casino) == (Casino {
                house_edge: new_edge,
                min_bet: new_min,
                max_bet: new_max,
                is_active: new_active,
                updated_at: now,
                ..*old(casino)
            }))
            &&& (old(casino).wf() ==> final(casino).wf())
        }),
{
    if caller != casino.authority {
        return Err(CasinoError::Unauthorized);
    }
    let new_edge = match house_edge {
        Some(e) => e,
        None => casino.house_edge,
    };
    let new_min = match min_bet {
        Some(m) => m,
        None => casino.min_bet,
    };
    let new_max = match max_bet {
        Some(m) => m,
        None => casino.max_bet,
    };
    let new_active = match is_active {
        Some(a) => a,
        None => casino.is_active,
    };
    if !(new_edge >= MIN_HOUSE_EDGE && new_edge <= MAX_HOUSE_EDGE) {
        return Err(CasinoError::InvalidHouseEdge);
    }
    if new_min > new_max {
        return Err(CasinoError::InvalidConfiguration);
    }
    casino.house_edge = new_edge;
    casino.min_bet = new_min;
    casino.max_bet = new_max;
    casino.is_active = new_active;
    casino.updated_at = now;
    Ok(())
}

/// Admin emergency stop: pauses the casino against new games.
pub fn emergency_pause(casino: &mut Casino, caller: u64, now: i64) -> (r: Result<
    (),
    CasinoError,
>)
    ensures
        caller != old(casino).authority ==> r == Err::<(), CasinoError>(CasinoError::Unauthorized)
            && *final(casino) == *old(casino),
        caller == old(casino).authority ==> r == Ok::<(), CasinoError>(()) && *final(casino) == (
        Casino { is_paused: true, updated_at: now, ..*old(casino) }),
{
    if caller != casino.authority {
        return Err(CasinoError::Unauthorized);
    }
    casino.is_paused = true;
    casino.updated_at = now;
    Ok(())
}

/// Authorizes a treasury withdrawal: only the authority, and only up to the
/// treasury balance the caller reports; the transfer itself is the fund
/// custody collaborator's step.
pub fn withdraw_treasury(casino: &Casino, caller: u64, amount: u64, treasury_balance: u64) -> (r:
    Result<u64, CasinoError>)
    ensures
        caller != casino.authority ==> r == Err::<u64, CasinoError>(CasinoError::Unauthorized),
        caller == casino.authority && amount > treasury_balance ==> r == Err::<u64, CasinoError>(
            CasinoError::InsufficientVaultFunds,
        ),
        r is Ok <==> caller == casino.authority && amount <= treasury_balance,
        r is Ok ==> r == Ok::<u64, CasinoError>(amount),
{
    if caller != casino.authority {
        return Err(CasinoError::Unauthorized);
    }
    if amount > treasury_balance {
        return Err(CasinoError::InsufficientVaultFunds);
    }
    Ok(amount)
}

/// A fresh player profile with every accumulator at zero.
pub fn initialize_player() -> (r: PlayerStats)
    ensures
        r == (PlayerStats {
            games_played: 0,
            total_wagered: 0,
            total_won: 0,
            biggest_win: 0,
            current_streak: 0,
            best_streak: 0,
            level: 0,
            experience: 0,
        }),
{
    PlayerStats {
        games_played: 0,
        total_wagered: 0,
        total_won: 0,
        biggest_win: 0,
        current_streak: 0,
        best_streak: 0,
        level: 0,
        experience: 0,
    }
}

/// Folds reported play into a player profile by saturating addition,
/// leaving the other fields untouched.
pub fn update_player_stats(
    stats: &mut PlayerStats,
    games_played: u64,
    total_wagered: u64,
    total_won: u64,
)
    ensures
        *final(stats) == (PlayerStats {
            games_played: sat_u64(old(stats).games_played + games_played),
            total_wagered: sat_u64(old(stats).total_wagered + total_wagered),
            total_won: sat_u64(old(stats).total_won + total_won),
            ..*old(stats)
        }),
{
    stats.games_played = stats.games_played.saturating_add(games_played);
    stats.total_wagered = stats.total_wagered.saturating_add(total_wagered);
    stats.total_won = stats.total_won.saturating_add(total_won);
}

/// Opens a tournament with an admissible window and capacity; it starts in
/// Created with an empty roster and an empty pool.
pub fn create_tournament(
    authority: u64,
    entry_fee: u64,
    max_players: u32,
    start_time: i64,
    duration: i64,
) -> (r: Result<Tournament, CasinoError>)
    ensures
        max_players == 0 ==> r == Err::<Tournament, CasinoError>(
            CasinoError::InvalidConfiguration,
        ),
        max_players > 0 && !(0 < duration <= MAX_TOURNAMENT_DURATION) ==> r == Err::<
            Tournament,
            CasinoError,
        >(CasinoError::InvalidConfiguration),
        r is Ok <==> max_players > 0 && 0 < duration <= MAX_TOURNAMENT_DURATION,
        r matches Ok(t) ==> {
            &&& t.authority == authority
            &&& t.entry_fee == entry_fee
            &&& t.max_players == max_players
            &&& t.start_time == start_time
            &&& t.duration == duration
            &&& t.status == TournamentStatus::Created
            &&& t.players@ == Seq::<u64>::empty()
            &&& t.prize_pool == 0
            &&& t.wf()
        },
{
    if max_players == 0 {
        return Err(CasinoError::InvalidConfiguration);
    }
    if !(duration > 0 && duration <= MAX_TOURNAMENT_DURATION) {
        return Err(CasinoError::InvalidConfiguration);
    }
    let players: Vec<u64> = Vec::new();
    Ok(
        Tournament {
            authority,
            entry_fee,
            max_players,
            start_time,
            duration,
            status: TournamentStatus::Created,
            players,
            prize_pool: 0,
        },
    )
}

/// Enters a player into a tournament under the roster rules: window open,
/// capacity not reached, one join per player.
pub fn join_tournament(tournament: &mut Tournament, player: u64, now: i64) -> (r: Result<
    (),
    CasinoError,
>)
    ensures
        !old(tournament).join_window_open(now) ==> r == Err::<(), CasinoError>(
            CasinoError::TournamentEnded,
        ) && *final(tournament) == *old(tournament),
        old(tournament).join_window_open(now) && old(tournament).players@.len() >= old(tournament).max_players ==> r == Err::<(), CasinoError>(CasinoError::TournamentFull) && *final(tournament) == *old(tournament),
        old(tournament).join_window_open(now) && old(tournament).players@.len() < old(tournament).max_players && old(tournament).players@.contains(player) ==> r == Err::<(), CasinoError>(
            CasinoError::AlreadyJoinedTournament,
        ) && *final(tournament) == *old(tournament),
        r is Ok <==> old(tournament).join_window_open(now) && old(tournament).players@.len() < old(tournament).max_players && !old(tournament).players@.contains(player),
        r is Ok ==> final(tournament).players@ == old(tournament).players@.push(player) && final(tournament).prize_pool == sat_u64(old(tournament).prize_pool + old(tournament).entry_fee),
        old(tournament).wf() ==> final(tournament).wf(),
{
    tournament.join(player, now)
}

/// Closes a tournament exactly once, after its window.
pub fn finalize_tournament(tournament: &mut Tournament, now: i64) -> (r: Result<(), CasinoError>)
    ensures
        r is Ok <==> (old(tournament).status == TournamentStatus::Created || old(tournament).status == TournamentStatus::Active) && now >= old(tournament).end_time_spec(),
        r is Ok ==> *final(tournament) == (Tournament {
            status: TournamentStatus::Finished,
            ..*old(tournament)
        }),
        r is Err ==> r == Err::<(), CasinoError>(CasinoError::CannotFinalizeTournament) && *final(tournament) == *old(tournament),
{
    tournament.finalize(now)
}

} // verus!
