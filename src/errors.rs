use vstd::prelude::*;

verus! {

/// Every way an operation of the arena can be refused.
#[derive(Clone, Copy, Debug, PartialEq, Eq, Structural)]
pub enum SatoshiError {
    AlreadyInitialized,
    NotInitialized,
    NotTurn,
    TaskNotCompleted,
    NotAParticipant,
    Unauthorized,
    AlreadyJoined,
    GameNotOver,
    NotWinner,
    IncompleteTurn,
    NotTimedOut,
    InvalidForceResolve,
    RewardNotClaimed,
    AlreadyClaimed,
    InvalidAction,
    InvalidFeeRate,
}

} // verus!
