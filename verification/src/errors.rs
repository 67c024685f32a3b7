//! The named failure conditions of the engine. Every operation reports a
//! specific condition, never a generic failure, so a caller can tell a
//! rejected amount from a bad state transition or a failed fairness check.

use vstd::prelude::*;

verus! {

#[derive(Clone, Copy, PartialEq, Eq, Structural, Debug)]
pub enum CasinoError {
    BetTooSmall,
    BetTooLarge,
    InvalidHouseEdge,
    InvalidTreasuryFee,
    CasinoNotActive,
    CasinoPaused,
    InsufficientVaultFunds,
    CannotResolveGame,
    CannotCancelGame,
    GameExpired,
    GameNotExpired,
    CannotExpireGame,
    CannotClaimWinnings,
    InvalidPrediction,
    InvalidServerSeed,
    InvalidClientSeed,
    ProvableFairnessVerificationFailed,
    Unauthorized,
    ArithmeticOverflow,
    ArithmeticUnderflow,
    InvalidGameType,
    GameAlreadyResolved,
    GameAlreadyClaimed,
    TournamentFull,
    TournamentNotStarted,
    TournamentEnded,
    AlreadyJoinedTournament,
    InvalidTournamentEntryFee,
    CannotFinalizeTournament,
    InvalidNonce,
    /// Declared for nonce/seed-reuse rejection across games; no operation
    /// returns it, as reuse enforcement is deliberately left to the caller.
    SeedAlreadyUsed,
    InvalidTimestamp,
    InvalidConfiguration,
}

} // verus!
