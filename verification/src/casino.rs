//! Casino-level configuration and economics: wager validation against the
//! configured bounds, the basis-point house-edge / treasury-fee / capped
//! payout formulas, and the saturating statistics accumulators.

use crate::errors::CasinoError;
use crate::state::{
    CasinoStats, BASIS_POINTS, MAX_HOUSE_EDGE, MAX_TREASURY_FEE, MIN_HOUSE_EDGE, sat_i64, sat_u64,
};
use vstd::prelude::*;

verus! {

use vstd::arithmetic::div_mod::{lemma_div_is_ordered, lemma_div_multiples_vanish};
use vstd::arithmetic::mul::{lemma_mul_inequality, lemma_mul_nonnegative, lemma_mul_upper_bound};

/// A basis-point fraction of an amount never exceeds the amount while the
/// rate is at most the denominator.
pub(crate) proof fn lemma_bp_fraction_bound(amount: int, bp: int, denom: int)
    requires
        0 <= amount,
        0 <= bp <= denom,
        0 < denom,
    ensures
        0 <= amount * bp / denom <= amount,
{
    lemma_mul_nonnegative(amount, bp);
    lemma_mul_inequality(bp, denom, amount);
    assert(amount * bp == bp * amount) by (nonlinear_arith);
    assert(amount * denom == denom * amount) by (nonlinear_arith);
    lemma_div_is_ordered(amount * bp, amount * denom, denom);
    lemma_div_multiples_vanish(amount, denom);
}

/// The casino as it stands after folding one resolved game into its
/// statistics: every counter grown by saturating addition, profit moved by
/// `house_edge_taken - payout` clamped into `i64`, the update timestamp
/// stamped, and the configuration untouched.
pub open spec fn casino_after_stats(
    c: Casino,
    bet_amount: u64,
    payout: u64,
    house_edge_taken: u64,
    treasury_fee_taken: u64,
    now: i64,
) -> Casino {
    Casino {
        stats: CasinoStats {
            total_games: sat_u64(c.stats.total_games + 1),
            total_volume: sat_u64(c.stats.total_volume + bet_amount),
            total_profit: sat_i64(c.stats.total_profit + house_edge_taken - payout),
            total_payouts: sat_u64(c.stats.total_payouts + payout),
            active_players: c.stats.active_players,
            house_edge_collected: sat_u64(c.stats.house_edge_collected + house_edge_taken),
            treasury_fees_collected: sat_u64(
                c.stats.treasury_fees_collected + treasury_fee_taken,
            ),
        },
        updated_at: now,
        ..c
    }
}

/// Per-deployment configuration and running statistics. Identities are the
/// plain account numbers the surrounding system addresses records by.
#[derive(Debug)]
pub struct Casino {
    /// Identity allowed to run admin operations.
    pub authority: u64,
    /// Identifier of the token the casino is denominated in.
    pub token_mint: u64,
    /// Reference to the fee-collecting treasury account.
    pub treasury: u64,
    /// Reference to the fund-holding vault account.
    pub vault: u64,
    /// House edge in basis points; admissible range 50..=1000.
    pub house_edge: u16,
    /// Minimum bet in token units.
    pub min_bet: u64,
    /// Maximum bet in token units.
    pub max_bet: u64,
    /// Treasury fee in basis points; at most 500.
    pub treasury_fee: u16,
    /// Whether the casino accepts new games.
    pub is_active: bool,
    /// Emergency pause flag.
    pub is_paused: bool,
    /// Running statistics.
    pub stats: CasinoStats,
    /// Creation timestamp.
    pub created_at: i64,
    /// Timestamp of the last configuration or statistics update.
    pub updated_at: i64,
}

impl Casino {
    /// Configuration invariant: established at initialization and preserved
    /// by every admin update.
    pub open spec fn wf(&self) -> bool {
        &&& MIN_HOUSE_EDGE <= self.house_edge <= MAX_HOUSE_EDGE
        &&& self.min_bet <= self.max_bet
        &&& self.treasury_fee <= MAX_TREASURY_FEE
    }

    /// A bet is admissible exactly when it lies in `[min_bet, max_bet]`;
    /// below the range it is too small, above it too large.
    pub fn validate_bet_amount(&self, amount: u64) -> (r: Result<(), CasinoError>)
        ensures
            r == Ok::<(), CasinoError>(()) <==> self.min_bet <= amount <= self.max_bet,
            amount < self.min_bet ==> r == Err::<(), CasinoError>(CasinoError::BetTooSmall),
            self.min_bet <= amount && amount > self.max_bet ==> r == Err::<(), CasinoError>(
                CasinoError::BetTooLarge,
            ),
    {
        if amount < self.min_bet {
            Err(CasinoError::BetTooSmall)
        } else if amount > self.max_bet {
            Err(CasinoError::BetTooLarge)
        } else {
            Ok(())
        }
    }

    /// The configured house edge is admissible exactly when it lies in
    /// `[MIN_HOUSE_EDGE, MAX_HOUSE_EDGE]`.
    pub fn validate_house_edge(&self) -> (r: Result<(), CasinoError>)
        ensures
            r == Ok::<(), CasinoError>(()) <==> MIN_HOUSE_EDGE <= self.house_edge
                <= MAX_HOUSE_EDGE,
            r is Err ==> r == Err::<(), CasinoError>(CasinoError::InvalidHouseEdge),
    {
        if self.house_edge >= MIN_HOUSE_EDGE && self.house_edge <= MAX_HOUSE_EDGE {
            Ok(())
        } else {
            Err(CasinoError::InvalidHouseEdge)
        }
    }

    /// The configured treasury fee is admissible exactly when it is at most
    /// `MAX_TREASURY_FEE`.
    pub fn validate_treasury_fee(&self) -> (r: Result<(), CasinoError>)
        ensures
            r == Ok::<(), CasinoError>(()) <==> self.treasury_fee <= MAX_TREASURY_FEE,
            r is Err ==> r == Err::<(), CasinoError>(CasinoError::InvalidTreasuryFee),
    {
        if self.treasury_fee <= MAX_TREASURY_FEE {
            Ok(())
        } else {
            Err(CasinoError::InvalidTreasuryFee)
        }
    }

    /// The house edge levied on a stake: `bet * house_edge / 10000`,
    /// saturating at `u64::MAX` (the saturation never binds while the
    /// configuration invariant holds).
    pub open spec fn house_edge_amount(&self, bet_amount: u64) -> u64 {
        sat_u64(bet_amount * self.house_edge / (BASIS_POINTS as int))
    }

    /// The treasury fee on a stake: `bet * treasury_fee / 10000`, saturating
    /// at `u64::MAX`.
    pub open spec fn treasury_fee_amount(&self, bet_amount: u64) -> u64 {
        sat_u64(bet_amount * self.treasury_fee / (BASIS_POINTS as int))
    }

    pub fn calculate_house_edge(&self, bet_amount: u64) -> (r: u64)
        ensures
            r == self.house_edge_amount(bet_amount),
            self.wf() ==> r == bet_amount * self.house_edge / (BASIS_POINTS as int),
    {
        proof {
            lemma_mul_upper_bound(
                bet_amount as int,
                u64::MAX as int,
                self.house_edge as int,
                u16::MAX as int,
            );
            if self.wf() {
                lemma_bp_fraction_bound(
                    bet_amount as int,
                    self.house_edge as int,
                    BASIS_POINTS as int,
                );
            }
        }
        let wide: u128 = (bet_amount as u128) * (self.house_edge as u128) / (BASIS_POINTS as u128);
        if wide > u64::MAX as u128 {
            u64::MAX
        } else {
            wide as u64
        }
    }

    pub fn calculate_treasury_fee(&self, bet_amount: u64) -> (r: u64)
        ensures
            r == self.treasury_fee_amount(bet_amount),
            self.wf() ==> r == bet_amount * self.treasury_fee / (BASIS_POINTS as int),
    {
        proof {
            lemma_mul_upper_bound(
                bet_amount as int,
                u64::MAX as int,
                self.treasury_fee as int,
                u16::MAX as int,
            );
            if self.wf() {
                lemma_bp_fraction_bound(
                    bet_amount as int,
                    self.treasury_fee as int,
                    BASIS_POINTS as int,
                );
            }
        }
        let wide: u128 = (bet_amount as u128) * (self.treasury_fee as u128) / (BASIS_POINTS
            as u128);
        if wide > u64::MAX as u128 {
            u64::MAX
        } else {
            wide as u64
        }
    }

    /// The cap on what a game may pay: gross winnings `bet * multiplier /
    /// 10000` minus house edge minus treasury fee, each subtraction floored
    /// at zero and every step saturating instead of overflowing.
    pub open spec fn max_payout(&self, bet_amount: u64, multiplier: u64) -> u64 {
        sat_u64(
            sat_u64(
                sat_u64(bet_amount * multiplier / (BASIS_POINTS as int)) - self.house_edge_amount(
                    bet_amount,
                ),
            ) - self.treasury_fee_amount(bet_amount),
        )
    }

    pub fn calculate_max_payout(&self, bet_amount: u64, multiplier: u64) -> (r: u64)
        ensures
            r == self.max_payout(bet_amount, multiplier),
    {
        proof {
            lemma_mul_upper_bound(
                bet_amount as int,
                u64::MAX as int,
                multiplier as int,
                u64::MAX as int,
            );
        }
        let wide: u128 = (bet_amount as u128) * (multiplier as u128) / (BASIS_POINTS as u128);
        let gross: u64 = if wide > u64::MAX as u128 {
            u64::MAX
        } else {
            wide as u64
        };
        let house_edge = self.calculate_house_edge(bet_amount);
        let treasury_fee = self.calculate_treasury_fee(bet_amount);
        gross.saturating_sub(house_edge).saturating_sub(treasury_fee)
    }

    /// The casino takes bets exactly when it is active and not paused.
    pub fn is_operational(&self) -> (r: bool)
        ensures
            r == (self.is_active && !self.is_paused),
    {
        self.is_active && !self.is_paused
    }

    /// Folds one resolved game into the statistics: every counter grows by
    /// saturating addition, profit moves by `house_edge_taken - payout`
    /// (signed, clamped into `i64`), and the update timestamp is stamped.
    /// Configuration is untouched.
    pub fn update_stats(
        &mut self,
        bet_amount: u64,
        payout: u64,
        house_edge_taken: u64,
        treasury_fee_taken: u64,
        now: i64,
    )
        ensures
            *final(self) == casino_after_stats(
                *old(self),
                bet_amount,
                payout,
                house_edge_taken,
                treasury_fee_taken,
                now,
            ),
            // the unsigned accumulators never decrease
            final(self).stats.total_games >= old(self).stats.total_games,
            final(self).stats.total_volume >= old(self).stats.total_volume,
            final(self).stats.total_payouts >= old(self).stats.total_payouts,
            final(self).stats.house_edge_collected >= old(self).stats.house_edge_collected,
            final(self).stats.treasury_fees_collected >= old(self).stats.treasury_fees_collected,
    {
        self.stats.total_games = self.stats.total_games.saturating_add(1);
        self.stats.total_volume = self.stats.total_volume.saturating_add(bet_amount);
        self.stats.total_payouts = self.stats.total_payouts.saturating_add(payout);
        self.stats.house_edge_collected = self.stats.house_edge_collected.saturating_add(
            house_edge_taken,
        );
        self.stats.treasury_fees_collected = self.stats.treasury_fees_collected.saturating_add(
            treasury_fee_taken,
        );
        let profit: i128 = (house_edge_taken as i128) - (payout as i128);
        let moved: i128 = (self.stats.total_profit as i128) + profit;
        self.stats.total_profit = if moved > i64::MAX as i128 {
            i64::MAX
        } else if moved < i64::MIN as i128 {
            i64::MIN
        } else {
            moved as i64
        };
        self.updated_at = now;
    }

    /// Profit margin in basis points of volume: `total_profit * 10000 /
    /// total_volume`, rounded toward zero, clamped into `i64`, and 0 when
    /// there is no volume.
    pub open spec fn profit_margin_bp(&self) -> i64 {
        if self.stats.total_volume == 0 {
            0
        } else if self.stats.total_profit >= 0 {
            sat_i64(self.stats.total_profit * (BASIS_POINTS as int) / (self.stats.total_volume
                as int))
        } else {
            sat_i64(-((-self.stats.total_profit) * (BASIS_POINTS as int) / (
            self.stats.total_volume as int)))
        }
    }

    pub fn get_profit_margin(&self) -> (r: i64)
        ensures
            r == self.profit_margin_bp(),
            self.stats.total_volume == 0 ==> r == 0,
    {
        if self.stats.total_volume == 0 {
            return 0;
        }
        if self.stats.total_profit >= 0 {
            proof {
                lemma_mul_upper_bound(
                    self.stats.total_profit as int,
                    i64::MAX as int,
                    BASIS_POINTS as int,
                    BASIS_POINTS as int,
                );
            }
            let wide: u128 = (self.stats.total_profit as u128) * (BASIS_POINTS as u128) / (
            self.stats.total_volume as u128);
            if wide > i64::MAX as u128 {
                i64::MAX
            } else {
                wide as i64
            }
        } else {
            let magnitude: u128 = if self.stats.total_profit == i64::MIN {
                (i64::MAX as u128) + 1
            } else {
                (-self.stats.total_profit) as u128
            };
            proof {
                lemma_mul_upper_bound(
                    magnitude as int,
                    (i64::MAX as int) + 1,
                    BASIS_POINTS as int,
                    BASIS_POINTS as int,
                );
            }
            let wide: u128 = magnitude * (BASIS_POINTS as u128) / (self.stats.total_volume
                as u128);
            if wide >= (i64::MAX as u128) + 1 {
                i64::MIN
            } else {
                -(wide as i64)
            }
        }
    }

    /// Payout ratio in basis points of volume: `total_payouts * 10000 /
    /// total_volume`, saturating at `u64::MAX`, and 0 when there is no
    /// volume.
    pub open spec fn payout_ratio_bp(&self) -> u64 {
        if self.stats.total_volume == 0 {
            0
        } else {
            sat_u64(self.stats.total_payouts * (BASIS_POINTS as int) / (self.stats.total_volume
                as int))
        }
    }

    pub fn get_payout_ratio(&self) -> (r: u64)
        ensures
            r == self.payout_ratio_bp(),
            self.stats.total_volume == 0 ==> r == 0,
    {
        if self.stats.total_volume == 0 {
            return 0;
        }
        proof {
            lemma_mul_upper_bound(
                self.stats.total_payouts as int,
                u64::MAX as int,
                BASIS_POINTS as int,
                BASIS_POINTS as int,
            );
        }
        let wide: u128 = (self.stats.total_payouts as u128) * (BASIS_POINTS as u128) / (
        self.stats.total_volume as u128);
        if wide > u64::MAX as u128 {
            u64::MAX
        } else {
            wide as u64
        }
    }
}

} // verus!
