//! Proposal status derivation: a pure function of a proposal's stored fields,
//! the governing timelock delay, and the current time. Status is never stored,
//! so it can never desynchronize from its inputs.

use vstd::prelude::*;

use crate::state::Proposal;

verus! {

/// The derived lifecycle state of a proposal.
#[derive(Clone, Copy, Debug, PartialEq, Eq, Structural)]
pub enum ProposalStatus {
    /// Created but not yet activated.
    Draft,
    /// Voting is open.
    Active,
    /// Canceled by its proposer or the execution authority; terminal.
    Canceled,
    /// Voting ended below quorum or without a strict majority; terminal.
    Defeated,
    /// Voting ended at or above quorum with a strict majority, not yet
    /// queued.
    Succeeded,
    /// Queued with the execution authority, still inside the timelock.
    Queued,
    /// Past the timelock and eligible for execution.
    Ready,
    /// Executed by the execution authority; terminal.
    Executed,
}

/// The status a proposal's stored fields denote at time `now`, under the
/// given timelock delay. First match wins:
/// canceled; executed; never activated; voting still open; voting ended
/// short of quorum (`for_votes < quorum_votes`) or without a strict majority
/// (`for_votes <= against_votes`); passed but not queued; queued inside the
/// timelock; queued past the timelock.
///
/// The executed check comes right after the canceled check so that Executed,
/// like Canceled, depends on no other field and on no clock reading: both are
/// terminal however the remaining fields or the time change.
///
/// Timestamps use zero for "unset", so activation is recorded by the pair
/// (`activated_at`, `voting_ends_at`): an activation at time zero still
/// opens voting as long as the voting period is not also zero. Only a
/// proposal activated at time zero with a zero voting period stays
/// indistinguishable from an unactivated one.
pub open spec fn spec_status(p: Proposal, timelock_delay_seconds: i64, now: i64) -> ProposalStatus {
    if p.canceled_at != 0 {
        ProposalStatus::Canceled
    } else if p.executed_at != 0 {
        ProposalStatus::Executed
    } else if p.activated_at == 0 && p.voting_ends_at == 0 {
        ProposalStatus::Draft
    } else if (now as int) < p.voting_ends_at as int {
        ProposalStatus::Active
    } else if p.for_votes < p.quorum_votes || p.for_votes <= p.against_votes {
        ProposalStatus::Defeated
    } else if p.queued_at == 0 {
        ProposalStatus::Succeeded
    } else if (now as int) < p.queued_at as int + timelock_delay_seconds as int {
        ProposalStatus::Queued
    } else {
        ProposalStatus::Ready
    }
}

impl Proposal {
    /// Derives this proposal's status at time `now` under the given timelock
    /// delay. Pure: the result is exactly [`spec_status`] of the stored
    /// fields, so two calls with the same fields and the same time agree.
    pub fn status(&self, timelock_delay_seconds: i64, now: i64) -> (r: ProposalStatus)
        ensures
            r == spec_status(*self, timelock_delay_seconds, now),
    {
        if self.canceled_at != 0 {
            ProposalStatus::Canceled
        } else if self.executed_at != 0 {
            ProposalStatus::Executed
        } else if self.activated_at == 0 && self.voting_ends_at == 0 {
            ProposalStatus::Draft
        } else if now < self.voting_ends_at {
            ProposalStatus::Active
        } else if self.for_votes < self.quorum_votes || self.for_votes <= self.against_votes {
            ProposalStatus::Defeated
        } else if self.queued_at == 0 {
            ProposalStatus::Succeeded
        } else if (now as i128) < (self.queued_at as i128) + (timelock_delay_seconds as i128) {
            ProposalStatus::Queued
        } else {
            ProposalStatus::Ready
        }
    }
}

/// Status derivation reads nothing but its three inputs: on equal stored
/// fields, equal timelock delay and equal time it yields equal results,
/// however the two readings are interleaved with other queries.
pub proof fn lemma_status_derivation_is_pure(
    p: Proposal,
    q: Proposal,
    timelock_delay_seconds: i64,
    now: i64,
)
    requires
        p == q,
    ensures
        spec_status(p, timelock_delay_seconds, now) == spec_status(
            q,
            timelock_delay_seconds,
            now,
        ),
{
}

/// Canceled is terminal in time: once a proposal's fields denote Canceled,
/// they denote Canceled at every time and under every timelock delay.
pub proof fn lemma_canceled_is_terminal(p: Proposal, tl1: i64, t1: i64, tl2: i64, t2: i64)
    requires
        spec_status(p, tl1, t1) == ProposalStatus::Canceled,
    ensures
        spec_status(p, tl2, t2) == ProposalStatus::Canceled,
{
}

/// Executed is terminal in time: once a proposal's fields denote Executed,
/// they denote Executed at every time and under every timelock delay.
pub proof fn lemma_executed_is_terminal(p: Proposal, tl1: i64, t1: i64, tl2: i64, t2: i64)
    requires
        spec_status(p, tl1, t1) == ProposalStatus::Executed,
    ensures
        spec_status(p, tl2, t2) == ProposalStatus::Executed,
{
}

} // verus!
