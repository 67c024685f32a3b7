//! One wager and its lifecycle: the state machine from creation through
//! claim, cancel or expiry, the commit-reveal fairness check, the
//! digest-indexed outcome derivation, and the payout computation.

use crate::errors::CasinoError;
use crate::fairness::{bytes_eq, combined_of, combined_seed, hex_encode, hex_of, sha256, sha256_of};
use crate::state::{
    GameResult, GameStatus, GameType, ProvableFairData, BASIS_POINTS, COINFLIP_PAYOUT,
    DICE_MAX_PAYOUT, ROULETTE_STRAIGHT_PAYOUT, sat_u64,
};
use vstd::prelude::*;

verus! {

use vstd::arithmetic::div_mod::lemma_div_pos_is_pos;
use vstd::arithmetic::mul::{lemma_mul_nonnegative, lemma_mul_upper_bound};

/// `b mod m` as a byte (meaningful for `m > 0`).
pub open spec fn byte_mod(b: u8, m: u8) -> u8 {
    ((b as int) % (m as int)) as u8
}

/// The outcome bytes a game type extracts from a fairness digest
/// (meaningful for digests of at least 4 bytes).
pub open spec fn outcome_of(t: GameType, digest: Seq<u8>) -> Seq<u8> {
    match t {
        GameType::CoinFlip => seq![byte_mod(digest[0], 2)],
        GameType::DiceRoll => seq![(byte_mod(digest[0], 100) + 1) as u8],
        GameType::Slots => seq![
            byte_mod(digest[0], 10),
            byte_mod(digest[1], 10),
            byte_mod(digest[2], 10),
        ],
        GameType::Roulette => seq![byte_mod(digest[0], 37)],
        _ => digest.subrange(0, 4),
    }
}

/// The digest a game's outcome is drawn from: SHA-256 of the revealed server
/// seed, the client seed and the decimal nonce, joined by `'-'`.
pub open spec fn game_digest(server_seed: Seq<u8>, client_seed: Seq<u8>, nonce: u64) -> Seq<u8> {
    sha256_of(combined_of(server_seed, client_seed, nonce))
}

/// The outcome bytes of a game, a function of the commitment inputs and the
/// revealed seed alone.
pub open spec fn game_outcome(
    t: GameType,
    server_seed: Seq<u8>,
    client_seed: Seq<u8>,
    nonce: u64,
) -> Seq<u8> {
    outcome_of(t, game_digest(server_seed, client_seed, nonce))
}

/// Whether a dice-roll prediction `[target, direction]` beats `roll`:
/// direction 0 bets the roll comes in under the target, anything else over.
pub open spec fn dice_won(target: u8, direction: u8, roll: u8) -> bool {
    if direction == 0 {
        roll < target
    } else {
        roll > target
    }
}

/// The winning-chance denominator of a dice bet, in roll percentiles.
pub open spec fn dice_probability(target: u8, direction: u8) -> int {
    if direction == 0 {
        target as int
    } else {
        100 - target as int
    }
}

/// The dice multiplier on a win: `980000 / probability` (a 98% return to
/// player), capped at `DICE_MAX_PAYOUT`, and 0 for a zero probability.
pub open spec fn dice_multiplier(target: u8, direction: u8) -> int {
    let p = dice_probability(target, direction);
    if p > 0 {
        let q = 980000int / p;
        if q > DICE_MAX_PAYOUT as int {
            DICE_MAX_PAYOUT as int
        } else {
            q
        }
    } else {
        0
    }
}

/// The slots multiplier: triple sevens 25000, any other three of a kind
/// 10000, any two of a kind 2000, else 0.
pub open spec fn slots_multiplier(a: u8, b: u8, c: u8) -> int {
    if a == b && b == c {
        if a == 7 {
            25000
        } else {
            10000
        }
    } else if a == b || b == c || a == c {
        2000
    } else {
        0
    }
}

/// Whether the prediction wins against the outcome bytes (meaningful where
/// the lengths fit the game type).
pub open spec fn won_of(t: GameType, prediction: Seq<u8>, outcome: Seq<u8>) -> bool {
    match t {
        GameType::CoinFlip => prediction[0] == outcome[0],
        GameType::DiceRoll => dice_won(prediction[0], prediction[1], outcome[0]),
        GameType::Slots => slots_multiplier(outcome[0], outcome[1], outcome[2]) > 0,
        GameType::Roulette => prediction[0] == outcome[0],
        _ => false,
    }
}

/// The win multiplier in basis points; 0 on a loss, and 0 always for game
/// types without a payout model.
pub open spec fn multiplier_of(t: GameType, prediction: Seq<u8>, outcome: Seq<u8>) -> int {
    match t {
        GameType::CoinFlip => if won_of(t, prediction, outcome) {
            COINFLIP_PAYOUT as int
        } else {
            0
        },
        GameType::DiceRoll => if won_of(t, prediction, outcome) {
            dice_multiplier(prediction[0], prediction[1])
        } else {
            0
        },
        GameType::Slots => slots_multiplier(outcome[0], outcome[1], outcome[2]),
        GameType::Roulette => if won_of(t, prediction, outcome) {
            ROULETTE_STRAIGHT_PAYOUT as int
        } else {
            0
        },
        _ => 0,
    }
}

/// The house edge levied on the stake, `bet * edge / 10000`.
pub open spec fn house_edge_of(bet_amount: u64, house_edge: u16) -> int {
    bet_amount * house_edge / (BASIS_POINTS as int)
}

/// Gross winnings before the house edge: `bet * multiplier / 10000` on a
/// win, 0 on a loss.
pub open spec fn gross_payout_of(
    bet_amount: u64,
    t: GameType,
    prediction: Seq<u8>,
    outcome: Seq<u8>,
) -> int {
    if won_of(t, prediction, outcome) {
        bet_amount * multiplier_of(t, prediction, outcome) / (BASIS_POINTS as int)
    } else {
        0
    }
}

/// The lengths under which a game type's payout is defined: one prediction
/// and one outcome byte for coin flip and roulette, one outcome byte for
/// dice (an over bet on a target past the last percentile is meaningless and
/// excluded), three outcome bytes for slots.
pub open spec fn payout_inputs_ok(t: GameType, prediction: Seq<u8>, outcome: Seq<u8>) -> bool {
    match t {
        GameType::CoinFlip | GameType::Roulette => prediction.len() >= 1 && outcome.len() >= 1,
        GameType::DiceRoll => outcome.len() >= 1 && (prediction.len() >= 2 && prediction[1] != 0
            ==> !(prediction[0] > 100 && outcome[0] > prediction[0])),
        GameType::Slots => outcome.len() >= 3,
        _ => true,
    }
}

/// One wager from creation to settlement. Identities are plain account
/// numbers; timestamps come from the caller's clock.
#[derive(Debug)]
pub struct Game {
    /// Player who created the game.
    pub player: u64,
    /// Casino this game belongs to.
    pub casino: u64,
    /// Type of game being played.
    pub game_type: GameType,
    /// Bet amount in token units.
    pub bet_amount: u64,
    /// Player's prediction bytes, at most 256.
    pub prediction: Vec<u8>,
    /// Result, populated at resolution and immutable afterwards.
    pub result: Option<GameResult>,
    /// Commit-reveal fairness record.
    pub provable_fair: ProvableFairData,
    /// Current lifecycle state.
    pub status: GameStatus,
    /// Timestamp of creation.
    pub created_at: i64,
    /// Timestamp of resolution, if resolved.
    pub resolved_at: Option<i64>,
    /// Timestamp of the claim, if claimed.
    pub claimed_at: Option<i64>,
    /// Deadline past which the game can only expire.
    pub expires_at: i64,
    /// Session identifier for tracking.
    pub session_id: u64,
}

impl Game {
    /// A game past its deadline.
    pub open spec fn is_expired_spec(&self, now: i64) -> bool {
        now > self.expires_at
    }

    /// Resolvable exactly from Created or Active, on or before the deadline.
    pub open spec fn can_resolve_spec(&self, now: i64) -> bool {
        &&& (self.status == GameStatus::Created || self.status == GameStatus::Active)
        &&& now <= self.expires_at
    }

    /// Claimable exactly when resolved with a positive payout and not yet
    /// claimed.
    pub open spec fn can_claim_spec(&self) -> bool {
        &&& self.status == GameStatus::Resolved
        &&& match self.result {
            Some(r) => r.payout > 0,
            None => false,
        }
        &&& self.claimed_at is None
    }

    /// The status uniquely determines which optional fields are populated:
    /// nothing before resolution, result and resolution stamp from Resolved
    /// on, and the claim stamp only once claimed.
    pub open spec fn status_fields_consistent(&self) -> bool {
        match self.status {
            GameStatus::Created | GameStatus::Active | GameStatus::Resolving => self.result
                is None && self.resolved_at is None && self.claimed_at is None,
            GameStatus::Resolved => self.result is Some && self.resolved_at is Some
                && self.claimed_at is None,
            GameStatus::Claimed => self.result is Some && self.resolved_at is Some
                && self.claimed_at is Some,
            GameStatus::Cancelled | GameStatus::Expired => self.result is None && self.resolved_at
                is None && self.claimed_at is None,
        }
    }

    /// The stored payout, 0 while unresolved.
    pub open spec fn payout_spec(&self) -> u64 {
        match self.result {
            Some(r) => r.payout,
            None => 0,
        }
    }

    pub fn is_expired(&self, now: i64) -> (r: bool)
        ensures
            r == self.is_expired_spec(now),
    {
        now > self.expires_at
    }

    pub fn can_be_resolved(&self, now: i64) -> (r: bool)
        ensures
            r == self.can_resolve_spec(now),
    {
        (self.status == GameStatus::Created || self.status == GameStatus::Active) && now
            <= self.expires_at
    }

    pub fn can_claim_winnings(&self) -> (r: bool)
        ensures
            r == self.can_claim_spec(),
    {
        let has_payout = match &self.result {
            Some(res) => res.payout > 0,
            None => false,
        };
        self.status == GameStatus::Resolved && has_payout && self.claimed_at.is_none()
    }

    /// Attaches the result and moves to Resolved; allowed exactly while the
    /// game is still resolvable, and otherwise changes nothing.
    pub fn resolve_game(&mut self, result: GameResult, now: i64) -> (r: Result<(), CasinoError>)
        ensures
            old(self).status_fields_consistent() ==> final(self).status_fields_consistent(),
            r == Ok::<(), CasinoError>(()) <==> old(self).can_resolve_spec(now),
            old(self).can_resolve_spec(now) ==> *final(self) == (Game {
                status: GameStatus::Resolved,
                result: Some(result),
                resolved_at: Some(now),
                ..*old(self)
            }),
            !old(self).can_resolve_spec(now) ==> r == Err::<(), CasinoError>(
                CasinoError::CannotResolveGame,
            ) && *final(self) == *old(self),
    {
        if !self.can_be_resolved(now) {
            return Err(CasinoError::CannotResolveGame);
        }
        self.result = Some(result);
        self.status = GameStatus::Resolved;
        self.resolved_at = Some(now);
        Ok(())
    }

    /// Hands out the payout exactly once: allowed only when resolved with a
    /// positive payout and never claimed before; the claim stamp is the
    /// guard that makes a second claim fail.
    pub fn claim_winnings(&mut self, now: i64) -> (r: Result<u64, CasinoError>)
        ensures
            old(self).status_fields_consistent() ==> final(self).status_fields_consistent(),
            r is Ok <==> old(self).can_claim_spec(),
            old(self).can_claim_spec() ==> r == Ok::<u64, CasinoError>(old(self).payout_spec())
                && *final(self) == (Game {
                status: GameStatus::Claimed,
                claimed_at: Some(now),
                ..*old(self)
            }),
            !old(self).can_claim_spec() ==> r == Err::<u64, CasinoError>(
                CasinoError::CannotClaimWinnings,
            ) && *final(self) == *old(self),
    {
        if !self.can_claim_winnings() {
            return Err(CasinoError::CannotClaimWinnings);
        }
        let payout = match &self.result {
            Some(res) => res.payout,
            None => 0,  // unreachable: the guard above requires a result
        };
        self.status = GameStatus::Claimed;
        self.claimed_at = Some(now);
        Ok(payout)
    }

    /// Cancels a game that has not started settling: allowed exactly from
    /// Created or Active.
    pub fn cancel_game(&mut self) -> (r: Result<(), CasinoError>)
        ensures
            old(self).status_fields_consistent() ==> final(self).status_fields_consistent(),
            r is Ok <==> old(self).status == GameStatus::Created || old(self).status
                == GameStatus::Active,
            r is Ok ==> *final(self) == (Game { status: GameStatus::Cancelled, ..*old(self) }),
            r is Err ==> r == Err::<(), CasinoError>(CasinoError::CannotCancelGame) && *final(self)
                == *old(self),
    {
        if self.status == GameStatus::Created || self.status == GameStatus::Active {
            self.status = GameStatus::Cancelled;
            Ok(())
        } else {
            Err(CasinoError::CannotCancelGame)
        }
    }

    /// Moves a game past its deadline to Expired; fails on a game not yet
    /// past the deadline, and on one already settled (Resolved, Claimed or
    /// Cancelled).
    pub fn expire_game(&mut self, now: i64) -> (r: Result<(), CasinoError>)
        ensures
            old(self).status_fields_consistent() ==> final(self).status_fields_consistent(),
            !old(self).is_expired_spec(now) ==> r == Err::<(), CasinoError>(
                CasinoError::GameNotExpired,
            ) && *final(self) == *old(self),
            old(self).is_expired_spec(now) && (old(self).status == GameStatus::Resolved || old(
                self,
            ).status == GameStatus::Claimed || old(self).status == GameStatus::Cancelled) ==> r
                == Err::<(), CasinoError>(CasinoError::CannotExpireGame) && *final(self) == *old(
                self,
            ),
            old(self).is_expired_spec(now) && !(old(self).status == GameStatus::Resolved || old(
                self,
            ).status == GameStatus::Claimed || old(self).status == GameStatus::Cancelled) ==> r
                == Ok::<(), CasinoError>(()) && *final(self) == (Game {
                status: GameStatus::Expired,
                ..*old(self)
            }),
    {
        if !self.is_expired(now) {
            return Err(CasinoError::GameNotExpired);
        }
        if self.status == GameStatus::Resolved || self.status == GameStatus::Claimed || self.status
            == GameStatus::Cancelled {
            return Err(CasinoError::CannotExpireGame);
        }
        self.status = GameStatus::Expired;
        Ok(())
    }

    /// How long the game ran: to its resolution, or to `now` while
    /// unresolved.
    pub open spec fn duration_spec(&self, now: i64) -> int {
        match self.resolved_at {
            Some(t) => t - self.created_at,
            None => now - self.created_at,
        }
    }

    pub fn get_game_duration(&self, now: i64) -> (r: i64)
        requires
            i64::MIN <= self.duration_spec(now) <= i64::MAX,
        ensures
            r == self.duration_spec(now),
    {
        match self.resolved_at {
            Some(t) => t - self.created_at,
            None => now - self.created_at,
        }
    }

    /// The commit-reveal check: SHA-256 of the revealed seed, hex-encoded,
    /// must equal the stored commitment byte for byte — exact equality,
    /// never normalized.
    pub fn verify_provable_fairness(&self, server_seed: &[u8]) -> (r: bool)
        ensures
            r <==> hex_of(sha256_of(server_seed@)) == self.provable_fair.server_seed_hash@,
    {
        let digest = sha256(server_seed);
        let computed = hex_encode(digest.as_slice());
        bytes_eq(computed.as_slice(), self.provable_fair.server_seed_hash.as_slice())
    }

    /// Derives the outcome bytes from the revealed seed and the stored
    /// commitment data; fully deterministic in those inputs.
    pub fn generate_game_outcome(&self, server_seed: &[u8]) -> (r: Vec<u8>)
        ensures
            r@ == game_outcome(
                self.game_type,
                server_seed@,
                self.provable_fair.client_seed@,
                self.provable_fair.nonce,
            ),
    {
        let combined = combined_seed(
            server_seed,
            self.provable_fair.client_seed.as_slice(),
            self.provable_fair.nonce,
        );
        let digest = sha256(combined.as_slice());
        match self.game_type {
            GameType::CoinFlip => {
                let v = vec![digest[0] % 2];
                assert(v@ =~= outcome_of(self.game_type, digest@));
                v
            },
            GameType::DiceRoll => {
                let v = vec![(digest[0] % 100) + 1];
                assert(v@ =~= outcome_of(self.game_type, digest@));
                v
            },
            GameType::Slots => {
                let v = vec![digest[0] % 10, digest[1] % 10, digest[2] % 10];
                assert(v@ =~= outcome_of(self.game_type, digest@));
                v
            },
            GameType::Roulette => {
                let v = vec![digest[0] % 37];
                assert(v@ =~= outcome_of(self.game_type, digest@));
                v
            },
            _ => {
                let mut v: Vec<u8> = Vec::new();
                v.push(digest[0]);
                v.push(digest[1]);
                v.push(digest[2]);
                v.push(digest[3]);
                assert(v@ =~= outcome_of(self.game_type, digest@));
                v
            },
        }
    }

    /// Maps the outcome bytes to a result under the game type's payout
    /// table: the multiplier of the table on a win, gross winnings `bet *
    /// multiplier / 10000`, and a net payout with the house edge subtracted
    /// from every resolution, floored at zero. A dice bet needs two
    /// prediction bytes; a gross payout or house edge beyond `u64` is
    /// rejected rather than wrapped. The treasury fee is left 0 here and
    /// filled in by casino-level accounting.
    pub fn calculate_payout(&self, outcome: &[u8], casino_house_edge: u16) -> (r: Result<
        GameResult,
        CasinoError,
    >)
        requires
            payout_inputs_ok(self.game_type, self.prediction@, outcome@),
        ensures
            self.game_type == GameType::DiceRoll && self.prediction@.len() < 2 ==> r == Err::<
                GameResult,
                CasinoError,
            >(CasinoError::InvalidPrediction),
            !(self.game_type == GameType::DiceRoll && self.prediction@.len() < 2) ==> {
                let hea = house_edge_of(self.bet_amount, casino_house_edge);
                let gross = gross_payout_of(self.bet_amount, self.game_type, self.prediction@,
                outcome@);
                if hea > u64::MAX || gross > u64::MAX {
                    r == Err::<GameResult, CasinoError>(CasinoError::ArithmeticOverflow)
                } else {
                    match r {
                        Ok(g) => {
                            &&& g.outcome@ == outcome@
                            &&& g.multiplier == multiplier_of(self.game_type, self.prediction@,
                            outcome@)
                            &&& g.payout == sat_u64(gross - hea)
                            &&& g.house_edge_taken == hea
                            &&& g.treasury_fee_taken == 0
                        },
                        Err(_) => false,
                    }
                }
            },
    {
        if self.game_type == GameType::DiceRoll && self.prediction.len() < 2 {
            return Err(CasinoError::InvalidPrediction);
        }
        proof {
            lemma_mul_upper_bound(
                self.bet_amount as int,
                u64::MAX as int,
                casino_house_edge as int,
                u16::MAX as int,
            );
        }
        let wide_edge: u128 = (self.bet_amount as u128) * (casino_house_edge as u128) / (
        BASIS_POINTS as u128);
        if wide_edge > u64::MAX as u128 {
            return Err(CasinoError::ArithmeticOverflow);
        }
        let house_edge_amount: u64 = wide_edge as u64;

        let (won, multiplier): (bool, u64) = match self.game_type {
            GameType::CoinFlip => {
                let won = self.prediction[0] == outcome[0];
                (won, if won {
                    COINFLIP_PAYOUT
                } else {
                    0
                })
            },
            GameType::DiceRoll => {
                let target = self.prediction[0];
                let over_under = self.prediction[1];
                let roll = outcome[0];
                let won = if over_under == 0 {
                    roll < target
                } else {
                    roll > target
                };
                let multiplier: u64 = if won {
                    let probability: u64 = if over_under == 0 {
                        target as u64
                    } else {
                        100 - (target as u64)
                    };
                    if probability > 0 {
                        proof {
                            lemma_div_pos_is_pos(980000, probability as int);
                        }
                        let q: u64 = 980000 / probability;
                        if q > DICE_MAX_PAYOUT {
                            DICE_MAX_PAYOUT
                        } else {
                            q
                        }
                    } else {
                        0
                    }
                } else {
                    0
                };
                (won, multiplier)
            },
            GameType::Slots => {
                let reel1 = outcome[0];
                let reel2 = outcome[1];
                let reel3 = outcome[2];
                let multiplier: u64 = if reel1 == reel2 && reel2 == reel3 {
                    if reel1 == 7 {
                        25000
                    } else {
                        10000
                    }
                } else if reel1 == reel2 || reel2 == reel3 || reel1 == reel3 {
                    2000
                } else {
                    0
                };
                (multiplier > 0, multiplier)
            },
            GameType::Roulette => {
                let won = self.prediction[0] == outcome[0];
                (won, if won {
                    ROULETTE_STRAIGHT_PAYOUT
                } else {
                    0
                })
            },
            _ => (false, 0),
        };

        let gross_payout: u64 = if won {
            proof {
                lemma_mul_upper_bound(
                    self.bet_amount as int,
                    u64::MAX as int,
                    multiplier as int,
                    u64::MAX as int,
                );
            }
            let wide: u128 = (self.bet_amount as u128) * (multiplier as u128) / (BASIS_POINTS
                as u128);
            if wide > u64::MAX as u128 {
                return Err(CasinoError::ArithmeticOverflow);
            }
            wide as u64
        } else {
            0
        };

        let net_payout = gross_payout.saturating_sub(house_edge_amount);

        let mut outcome_copy: Vec<u8> = Vec::new();
        outcome_copy.extend_from_slice(outcome);
        Ok(
            GameResult {
                outcome: outcome_copy,
                multiplier,
                payout: net_payout,
                house_edge_taken: house_edge_amount,
                treasury_fee_taken: 0,
            },
        )
    }
}

/// The payout table stays in range: no game type's multiplier is negative
/// or exceeds the roulette straight-number payout.
pub proof fn lemma_multiplier_in_range(t: GameType, prediction: Seq<u8>, outcome: Seq<u8>)
    ensures
        0 <= multiplier_of(t, prediction, outcome) <= ROULETTE_STRAIGHT_PAYOUT,
{
    if t == GameType::DiceRoll && won_of(t, prediction, outcome) {
        let p = dice_probability(prediction[0], prediction[1]);
        if p > 0 {
            lemma_div_pos_is_pos(980000, p);
        }
    }
}

/// The engine-wide payout invariant: the net payout never exceeds the gross
/// winnings `bet * multiplier / 10000`, whatever the house edge.
pub proof fn lemma_payout_within_gross(
    bet_amount: u64,
    t: GameType,
    prediction: Seq<u8>,
    outcome: Seq<u8>,
    house_edge: u16,
)
    ensures
        sat_u64(
            gross_payout_of(bet_amount, t, prediction, outcome) - house_edge_of(
                bet_amount,
                house_edge,
            ),
        ) <= bet_amount * multiplier_of(t, prediction, outcome) / (BASIS_POINTS as int),
{
    lemma_multiplier_in_range(t, prediction, outcome);
    lemma_mul_nonnegative(bet_amount as int, house_edge as int);
    lemma_div_pos_is_pos(bet_amount * house_edge, BASIS_POINTS as int);
    lemma_mul_nonnegative(bet_amount as int, multiplier_of(t, prediction, outcome));
    lemma_div_pos_is_pos(
        bet_amount * multiplier_of(t, prediction, outcome),
        BASIS_POINTS as int,
    );
}

/// A claimed game never satisfies the claim guard again: with the
/// resolve/claim contracts this makes a successful claim unrepeatable.
pub proof fn lemma_claim_at_most_once(g: Game)
    requires
        g.status == GameStatus::Claimed,
    ensures
        !g.can_claim_spec(),
{
}

/// The derived outcome is a function of the game type, the commitment data
/// and the revealed seed alone: any two games agreeing on those agree on the
/// outcome, however often it is recomputed.
pub proof fn lemma_outcome_deterministic(g1: Game, g2: Game, server_seed: Seq<u8>)
    requires
        g1.game_type == g2.game_type,
        g1.provable_fair.client_seed@ == g2.provable_fair.client_seed@,
        g1.provable_fair.nonce == g2.provable_fair.nonce,
    ensures
        game_outcome(g1.game_type, server_seed, g1.provable_fair.client_seed@,
        g1.provable_fair.nonce) == game_outcome(g2.game_type, server_seed,
        g2.provable_fair.client_seed@, g2.provable_fair.nonce),
{
}

} // verus!
