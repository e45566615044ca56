//! Error taxonomy of the session core.
//!
//! Validation failures of individual moves are data, not errors: they are
//! reported through [`crate::game_traits::GameActionResult::Failure`] with a
//! [`RejectReason`].  Structural failures (unknown session, unknown game
//! type, wagering rule violations) are hard errors of type [`GameError`];
//! they never leave the session store in a mutated state.

use vstd::prelude::*;

verus! {

/// A hard error returned by the session core.  Each variant is produced on
/// exactly the inputs stated in the contract of the function that returns it.
#[derive(Clone, Copy, Debug, PartialEq, Eq)]
pub enum GameError {
    /// No engine is registered under the requested game type id.
    GameTypeNotFound,
    /// No session with the given instance id exists in the store.
    GameNotFound,
    /// A stored session names a game type with no registered engine.
    /// Unreachable through the public entry points, which only store
    /// sessions whose engine was found; kept as a defensive check.
    EngineNotFound,
    /// The player list handed to session creation is outside the engine's
    /// inclusive `[min_players, max_players]` bounds.
    InvalidPlayerCount,
    /// Wagering was requested for a session or engine that does not
    /// support it, or a stake was committed to a session without wagering.
    WageringNotSupported,
    /// The staking player is not a member of the session.
    PlayerNotInGame,
    /// The player already committed a stake for this session.
    StakeAlreadyCommitted,
    /// The offered stake is below the configured minimum.
    StakeBelowMinimum,
    /// The offered stake is above the configured maximum.
    StakeAboveMaximum,
    /// The configuration demands equal stakes and the offered amount
    /// differs from the stake committed first.
    UnequalStake,
    /// Accepting the stake would overflow the running pot total.
    PotOverflow,
    /// The session id space is exhausted; no further session can be created.
    SessionLimitReached,
    /// Payout computation is not defined for the session's wagering mode
    /// (the built-in rules leave `SplitPot` to game-specific overrides).
    PayoutsUnsupported,
    /// The engine failed to apply a move it had already validated; treated
    /// as a defect in the engine rather than a normal-path condition.
    ApplyFailed,
}

/// Why a move was rejected by validation.  Rejections are returned as data;
/// the stored session state is never changed by a rejected move.
#[derive(Clone, Copy, Debug, PartialEq, Eq)]
pub enum RejectReason {
    /// The session is already finished; no further moves are accepted.
    GameAlreadyFinished,
    /// The acting player is not a member of the session.
    PlayerNotInGame,
    /// The acting player already made the move this phase allows.
    AlreadyMoved,
    /// The move payload does not decode under the engine's encoding.
    MalformedMove,
    /// The session's game-specific payload does not decode; the session
    /// record was built outside the engine that owns the encoding.
    StateUnreadable,
}

} // verus!
