//! Shared data model: the closed sets of game types and statuses, the
//! per-game result and fairness records, the statistics accumulators, and the
//! engine-wide constants (all percentage-like quantities are basis points out
//! of 10000).

use vstd::prelude::*;

verus! {

/// The closed set of games the engine can settle.
#[derive(Clone, Copy, PartialEq, Eq, Structural, Debug)]
pub enum GameType {
    CoinFlip,
    DiceRoll,
    Slots,
    Blackjack,
    Roulette,
    Poker,
    Lottery,
    SportsBet,
}

/// Lifecycle of one wager: Created -> Active -> Resolving -> Resolved ->
/// Claimed, with side exits Cancelled (from Created or Active) and Expired
/// (from any non-terminal state once past the deadline).
#[derive(Clone, Copy, PartialEq, Eq, Structural, Debug)]
pub enum GameStatus {
    Created,
    Active,
    Resolving,
    Resolved,
    Claimed,
    Cancelled,
    Expired,
}

#[derive(Clone, Copy, PartialEq, Eq, Structural, Debug)]
pub enum TournamentStatus {
    Created,
    Active,
    Finished,
    Cancelled,
}

/// Outcome of a resolved wager; immutable once attached to a game.
#[derive(Debug, PartialEq)]
pub struct GameResult {
    /// Outcome bytes extracted from the fairness digest.
    pub outcome: Vec<u8>,
    /// Win multiplier in basis points (10000 = 1x); 0 on a loss.
    pub multiplier: u64,
    /// Net payout: gross winnings minus the house edge, floored at zero.
    pub payout: u64,
    /// House edge levied on the stake for this game.
    pub house_edge_taken: u64,
    /// Treasury fee, computed separately from casino configuration.
    pub treasury_fee_taken: u64,
}

impl Clone for GameResult {
    /// An exact copy, so a result can both be stored on the game and returned
    /// to the caller.
    fn clone(&self) -> (r: Self)
        ensures
            r.outcome@ == self.outcome@,
            r.multiplier == self.multiplier,
            r.payout == self.payout,
            r.house_edge_taken == self.house_edge_taken,
            r.treasury_fee_taken == self.treasury_fee_taken,
    {
        GameResult {
            outcome: self.outcome.clone(),
            multiplier: self.multiplier,
            payout: self.payout,
            house_edge_taken: self.house_edge_taken,
            treasury_fee_taken: self.treasury_fee_taken,
        }
    }
}

/// Commit-reveal fairness record of one game. The hash of the server's secret
/// seed is committed (hex-encoded) at creation; the secret itself is revealed
/// only at resolution, and is write-once.
#[derive(Debug)]
pub struct ProvableFairData {
    /// Hex-encoded SHA-256 digest of the server seed, immutable once set.
    pub server_seed_hash: Vec<u8>,
    /// Caller-supplied seed mixed into the outcome derivation.
    pub client_seed: Vec<u8>,
    /// Caller-supplied nonce mixed into the outcome derivation.
    pub nonce: u64,
    /// The revealed server seed, populated only after resolution.
    pub server_seed: Option<Vec<u8>>,
}

/// Per-player accumulators, updated with saturating arithmetic.
#[derive(Debug)]
pub struct PlayerStats {
    pub games_played: u64,
    pub total_wagered: u64,
    pub total_won: u64,
    pub biggest_win: u64,
    pub current_streak: i32,
    pub best_streak: i32,
    pub level: u32,
    pub experience: u64,
}

/// Casino-wide accumulators, updated with saturating arithmetic. All counters
/// are monotone; `total_profit` is signed and may go negative when payouts
/// exceed the house take.
#[derive(Debug)]
pub struct CasinoStats {
    pub total_games: u64,
    pub total_volume: u64,
    pub total_profit: i64,
    pub total_payouts: u64,
    pub active_players: u32,
    pub house_edge_collected: u64,
    pub treasury_fees_collected: u64,
}

/// A game expires this many seconds after creation.
pub const MAX_GAME_DURATION: i64 = 3600;

/// Upper bound on a tournament window, one week in seconds.
pub const MAX_TOURNAMENT_DURATION: i64 = 86400 * 7;

/// Lowest admissible house edge, 0.5%.
pub const MIN_HOUSE_EDGE: u16 = 50;

/// Highest admissible house edge, 10%.
pub const MAX_HOUSE_EDGE: u16 = 1000;

/// Highest admissible treasury fee, 5%.
pub const MAX_TREASURY_FEE: u16 = 500;

/// Basis-point denominator: 10000 = 100%.
pub const BASIS_POINTS: u64 = 10000;

/// Coin flip win multiplier, 1.95x.
pub const COINFLIP_PAYOUT: u64 = 19500;

/// Cap on the dice roll multiplier, 9.8x.
pub const DICE_MAX_PAYOUT: u64 = 98000;

/// Cap on the slots multiplier, 25x.
pub const SLOTS_MAX_PAYOUT: u64 = 250000;

/// Roulette straight-number multiplier, 35x.
pub const ROULETTE_STRAIGHT_PAYOUT: u64 = 350000;

/// `x` clamped into `u64`, the shared saturation model of the statistics
/// accumulators and the capped economics formulas.
pub open spec fn sat_u64(x: int) -> u64 {
    if x > u64::MAX {
        u64::MAX
    } else if x < 0 {
        0
    } else {
        x as u64
    }
}

/// `x` clamped into `i64`, the saturation model of the signed profit
/// accumulator.
pub open spec fn sat_i64(x: int) -> i64 {
    if x > i64::MAX {
        i64::MAX
    } else if x < i64::MIN {
        i64::MIN
    } else {
        x as i64
    }
}

} // verus!
