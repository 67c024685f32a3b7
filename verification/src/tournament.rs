//! Entry/exit/finalization bookkeeping for a pooled-prize competition. The
//! enforced rules: a capacity bound, one join per player, joining only while
//! the window is open, and a single finalization once it has closed. The
//! prize-split algorithm itself is a separate collaborator and not modeled.

use crate::errors::CasinoError;
use crate::state::{TournamentStatus, MAX_TOURNAMENT_DURATION, sat_u64};
use vstd::prelude::*;

verus! {

/// One tournament: configuration, the roster of joined players, and the
/// pooled entry fees.
#[derive(Debug)]
pub struct Tournament {
    /// Identity allowed to administer the tournament.
    pub authority: u64,
    /// Entry fee per player in token units.
    pub entry_fee: u64,
    /// Capacity bound on the roster.
    pub max_players: u32,
    /// Start of the competition window.
    pub start_time: i64,
    /// Length of the window in seconds.
    pub duration: i64,
    /// Lifecycle state.
    pub status: TournamentStatus,
    /// Joined players, one entry each.
    pub players: Vec<u64>,
    /// Pooled entry fees, accumulated with saturating addition.
    pub prize_pool: u64,
}

impl Tournament {
    /// The end of the competition window.
    pub open spec fn end_time_spec(&self) -> int {
        self.start_time + self.duration
    }

    /// Roster invariant: within capacity, and one entry per player.
    pub open spec fn wf(&self) -> bool {
        &&& self.players@.len() <= self.max_players
        &&& forall|i: int, j: int|
            0 <= i < j < self.players@.len() ==> self.players@[i] != self.players@[j]
        &&& 0 < self.duration <= MAX_TOURNAMENT_DURATION
    }

    /// Joinable exactly while the status is Created or Active and the
    /// window has not closed.
    pub open spec fn join_window_open(&self, now: i64) -> bool {
        &&& (self.status == TournamentStatus::Created || self.status == TournamentStatus::Active)
        &&& now < self.end_time_spec()
    }

    /// Whether `player` already holds a roster entry.
    pub fn has_player(&self, player: u64) -> (r: bool)
        ensures
            r == self.players@.contains(player),
    {
        let n = self.players.len();
        let mut i: usize = 0;
        while i < n
            invariant
                n == self.players@.len(),
                i <= n,
                forall|j: int| 0 <= j < i ==> self.players@[j] != player,
            decreases n - i,
        {
            if self.players[i] == player {
                return true;
            }
            i += 1;
        }
        false
    }

    /// Adds a player: fails once the window is closed (or the tournament is
    /// finished or cancelled), when the roster is full, and on a repeated
    /// join; otherwise appends the player and pools the entry fee.
    pub fn join(&mut self, player: u64, now: i64) -> (r: Result<(), CasinoError>)
        ensures
            !old(self).join_window_open(now) ==> r == Err::<(), CasinoError>(
                CasinoError::TournamentEnded,
            ) && *final(self) == *old(self),
            old(self).join_window_open(now) && old(self).players@.len() >= old(self).max_players
                ==> r == Err::<(), CasinoError>(CasinoError::TournamentFull) && *final(self)
                == *old(self),
            old(self).join_window_open(now) && old(self).players@.len() < old(self).max_players
                && old(self).players@.contains(player) ==> r == Err::<(), CasinoError>(
                CasinoError::AlreadyJoinedTournament,
            ) && *final(self) == *old(self),
            old(self).join_window_open(now) && old(self).players@.len() < old(self).max_players
                && !old(self).players@.contains(player) ==> r == Ok::<(), CasinoError>(())
                && *final(self) == (Tournament {
                players: final(self).players,
                prize_pool: sat_u64(old(self).prize_pool + old(self).entry_fee),
                ..*old(self)
            }) && final(self).players@ == old(self).players@.push(player),
            old(self).wf() ==> final(self).wf(),
    {
        if !(self.status == TournamentStatus::Created || self.status == TournamentStatus::Active) {
            return Err(CasinoError::TournamentEnded);
        }
        let open_window: bool = (now as i128) < (self.start_time as i128) + (self.duration
            as i128);
        if !open_window {
            return Err(CasinoError::TournamentEnded);
        }
        if self.players.len() >= self.max_players as usize {
            return Err(CasinoError::TournamentFull);
        }
        if self.has_player(player) {
            return Err(CasinoError::AlreadyJoinedTournament);
        }
        self.players.push(player);
        self.prize_pool = self.prize_pool.saturating_add(self.entry_fee);
        Ok(())
    }

    /// Closes the tournament exactly once: only from Created or Active, and
    /// only after the window has closed.
    pub fn finalize(&mut self, now: i64) -> (r: Result<(), CasinoError>)
        ensures
            r is Ok <==> (old(self).status == TournamentStatus::Created || old(self).status
                == TournamentStatus::Active) && now >= old(self).end_time_spec(),
            r is Ok ==> *final(self) == (Tournament {
                status: TournamentStatus::Finished,
                ..*old(self)
            }),
            r is Err ==> r == Err::<(), CasinoError>(CasinoError::CannotFinalizeTournament)
                && *final(self) == *old(self),
    {
        if !(self.status == TournamentStatus::Created || self.status == TournamentStatus::Active) {
            return Err(CasinoError::CannotFinalizeTournament);
        }
        let closed: bool = (now as i128) >= (self.start_time as i128) + (self.duration as i128);
        if !closed {
            return Err(CasinoError::CannotFinalizeTournament);
        }
        self.status = TournamentStatus::Finished;
        Ok(())
    }
}

} // verus!
