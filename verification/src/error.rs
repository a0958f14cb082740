//! Error taxonomy of the governance core. Every rejected precondition surfaces
//! one of these kinds; no operation fails silently or partially.

use vstd::prelude::*;

verus! {

/// Why a governance operation was rejected. Preconditions are checked before
/// any mutation, so an `Err` always leaves every record unchanged.
#[derive(Clone, Copy, Debug, PartialEq, Eq, Structural)]
pub enum GovernError {
    /// The caller is not the exact principal the operation requires.
    Unauthorized,
    /// The proposal's derived status does not admit this operation.
    InvalidState,
    /// A vote for this (proposal, voter) pair already exists.
    AlreadyVoted,
    /// A vote was cast or changed while the proposal was not Active.
    VotingClosed,
    /// The proposal was already marked executed.
    AlreadyExecuted,
    /// A counter or weight would exceed its representable range.
    Overflow,
    /// The operation names a record whose owning-chain references do not match.
    StaleReference,
}

} // verus!
