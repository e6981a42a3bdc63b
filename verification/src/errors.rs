use vstd::prelude::*;

verus! {

/// Every way an escrow operation can fail. All failures are terminal for
/// the invocation that raised them: the operation reports the error and
/// leaves the state exactly as it found it.
#[derive(Clone, Copy, Debug, PartialEq, Eq, Structural)]
pub enum Error {
    /// `initialize` was called on an already-initialized contract.
    AlreadyInitialized,
    /// An operation that needs the global configuration ran before
    /// `initialize`.
    NotInitialized,
    /// An admin-gated operation was called by an identity other than the
    /// stored admin.
    Unauthorized,
    /// The player already holds a stake pointer for this exact game.
    AlreadyStaked,
    /// No match exists for the requested game id.
    MatchNotFound,
    /// The match was already finalized with a winner.
    MatchAlreadyFinished,
    /// The declared winner is not in the match's player list.
    WinnerNotAPlayer,
}

} // verus!
