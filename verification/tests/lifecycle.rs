//! Lifecycle scenarios: creation, activation, voting, queueing, execution,
//! cancellation, and the error on every rejected precondition.

use govern::dao::Dao;
use govern::error::GovernError;
use govern::keys::Pubkey;
use govern::state::{GovernanceParameters, VoteSide};
use govern::status::ProposalStatus;

fn key(n: u64) -> Pubkey {
    Pubkey::new(n, 0, 0, 0)
}

const TIMELOCK: i64 = 10;

fn setup() -> Dao {
    let params = GovernanceParameters {
        voting_delay: 0,
        voting_period: 100,
        quorum_votes: 50,
        timelock_delay_seconds: TIMELOCK,
    };
    Dao::new(key(10), key(11), 255, key(3), key(1), params)
}

fn status_at(dao: &Dao, index: u64, now: i64) -> ProposalStatus {
    dao.proposals[index as usize].proposal.status(dao.governor.params.timelock_delay_seconds, now)
}

#[test]
fn scenario_pass_with_quorum() {
    let mut dao = setup();
    let idx = dao.create_proposal(key(2), 0, vec![], 0).unwrap();
    assert_eq!(idx, 0);
    assert_eq!(status_at(&dao, idx, 0), ProposalStatus::Draft);

    dao.activate_proposal(idx, 0).unwrap();
    assert_eq!(dao.proposals[0].proposal.voting_ends_at, 100);
    assert_eq!(status_at(&dao, idx, 0), ProposalStatus::Active);

    dao.cast_vote(idx, key(20), 0, VoteSide::For, 60, 50).unwrap();
    assert_eq!(dao.proposals[0].proposal.for_votes, 60);
    assert_eq!(status_at(&dao, idx, 100), ProposalStatus::Succeeded);
}

#[test]
fn scenario_defeat_below_quorum() {
    let mut dao = setup();
    let idx = dao.create_proposal(key(2), 0, vec![], 0).unwrap();
    dao.activate_proposal(idx, 0).unwrap();
    dao.cast_vote(idx, key(20), 0, VoteSide::For, 30, 50).unwrap();
    assert_eq!(status_at(&dao, idx, 100), ProposalStatus::Defeated);
}

#[test]
fn scenario_queue_and_execute() {
    let mut dao = setup();
    let idx = dao.create_proposal(key(2), 0, vec![], 0).unwrap();
    dao.activate_proposal(idx, 0).unwrap();
    dao.cast_vote(idx, key(20), 0, VoteSide::For, 60, 50).unwrap();
    assert_eq!(status_at(&dao, idx, 100), ProposalStatus::Succeeded);

    dao.queue_proposal(idx, key(77), 100).unwrap();
    assert_eq!(dao.proposals[0].proposal.queued_at, 100);
    assert_eq!(dao.proposals[0].proposal.queued_transaction, key(77));
    assert_eq!(status_at(&dao, idx, 105), ProposalStatus::Queued);
    assert_eq!(status_at(&dao, idx, 111), ProposalStatus::Ready);

    // Execution is refused while the timelock still runs.
    assert_eq!(dao.mark_executed(idx, key(1), 105), Err(GovernError::InvalidState));
    dao.mark_executed(idx, key(1), 111).unwrap();
    assert_eq!(status_at(&dao, idx, 111), ProposalStatus::Executed);
    assert_eq!(status_at(&dao, idx, 100000), ProposalStatus::Executed);
    // Re-invocation is refused once executed.
    assert_eq!(dao.mark_executed(idx, key(1), 112), Err(GovernError::AlreadyExecuted));
}

#[test]
fn scenario_cancel_draft() {
    let mut dao = setup();
    let idx = dao.create_proposal(key(2), 0, vec![], 1).unwrap();
    assert_eq!(status_at(&dao, idx, 1), ProposalStatus::Draft);
    dao.cancel_proposal(idx, key(2), 1).unwrap();
    assert_eq!(status_at(&dao, idx, 1), ProposalStatus::Canceled);
    assert_eq!(dao.activate_proposal(idx, 5), Err(GovernError::InvalidState));
}

#[test]
fn scenario_duplicate_vote() {
    let mut dao = setup();
    let idx = dao.create_proposal(key(2), 0, vec![], 0).unwrap();
    dao.activate_proposal(idx, 0).unwrap();
    // Two casts for the same (proposal, voter) pair: exactly one succeeds.
    assert_eq!(dao.cast_vote(idx, key(20), 0, VoteSide::For, 60, 10), Ok(()));
    assert_eq!(
        dao.cast_vote(idx, key(20), 0, VoteSide::For, 60, 11),
        Err(GovernError::AlreadyVoted)
    );
    // The tally reflects exactly one weight increment.
    assert_eq!(dao.proposals[0].proposal.for_votes, 60);
    assert_eq!(dao.proposals[0].votes.len(), 1);
}

#[test]
fn tally_conservation_across_votes() {
    let mut dao = setup();
    let idx = dao.create_proposal(key(2), 0, vec![], 0).unwrap();
    dao.activate_proposal(idx, 0).unwrap();
    dao.cast_vote(idx, key(20), 0, VoteSide::For, 60, 10).unwrap();
    dao.cast_vote(idx, key(21), 0, VoteSide::Against, 25, 11).unwrap();
    dao.cast_vote(idx, key(22), 0, VoteSide::Abstain, 7, 12).unwrap();
    dao.cast_vote(idx, key(23), 0, VoteSide::For, 0, 13).unwrap();
    let p = &dao.proposals[0].proposal;
    let total: u64 = dao.proposals[0].votes.iter().map(|v| v.weight).sum();
    assert_eq!(p.for_votes + p.against_votes + p.abstain_votes, total);
    assert_eq!(p.for_votes, 60);
    assert_eq!(p.against_votes, 25);
    assert_eq!(p.abstain_votes, 7);
}

#[test]
fn change_vote_moves_weight_atomically() {
    let mut dao = setup();
    let idx = dao.create_proposal(key(2), 0, vec![], 0).unwrap();
    dao.activate_proposal(idx, 0).unwrap();
    dao.cast_vote(idx, key(20), 0, VoteSide::For, 60, 10).unwrap();
    // The voter switches sides with a freshly queried weight.
    dao.change_vote(idx, key(20), VoteSide::Against, 40, 20).unwrap();
    let p = &dao.proposals[0].proposal;
    assert_eq!(p.for_votes, 0);
    assert_eq!(p.against_votes, 40);
    assert_eq!(p.abstain_votes, 0);
    assert_eq!(dao.proposals[0].votes.len(), 1);
    assert_eq!(dao.proposals[0].votes[0].weight, 40);
    // Changing a vote that does not exist names a stale record.
    assert_eq!(
        dao.change_vote(idx, key(99), VoteSide::For, 5, 20),
        Err(GovernError::StaleReference)
    );
    // After the window closes, changes are refused.
    assert_eq!(
        dao.change_vote(idx, key(20), VoteSide::For, 40, 100),
        Err(GovernError::VotingClosed)
    );
}

#[test]
fn change_vote_refreshes_weight_on_same_side() {
    let mut dao = setup();
    let idx = dao.create_proposal(key(2), 0, vec![], 0).unwrap();
    dao.activate_proposal(idx, 0).unwrap();
    dao.cast_vote(idx, key(20), 0, VoteSide::For, 60, 10).unwrap();
    dao.change_vote(idx, key(20), VoteSide::For, 45, 20).unwrap();
    assert_eq!(dao.proposals[0].proposal.for_votes, 45);
    assert_eq!(dao.proposals[0].votes[0].weight, 45);
    assert_eq!(dao.proposals[0].votes[0].side, VoteSide::For);
}

#[test]
fn change_vote_overflow_is_rejected() {
    let mut dao = setup();
    let idx = dao.create_proposal(key(2), 0, vec![], 0).unwrap();
    dao.activate_proposal(idx, 0).unwrap();
    dao.cast_vote(idx, key(20), 0, VoteSide::For, u64::MAX, 10).unwrap();
    dao.cast_vote(idx, key(21), 0, VoteSide::Against, 5, 11).unwrap();
    assert_eq!(
        dao.change_vote(idx, key(21), VoteSide::For, 1, 12),
        Err(GovernError::Overflow)
    );
    // The failed change left both the vote and the tallies untouched.
    assert_eq!(dao.proposals[0].proposal.for_votes, u64::MAX);
    assert_eq!(dao.proposals[0].proposal.against_votes, 5);
    assert_eq!(dao.proposals[0].votes[1].side, VoteSide::Against);
}

#[test]
fn activation_overflow_is_rejected() {
    let mut dao = setup();
    let idx = dao.create_proposal(key(2), 0, vec![], 0).unwrap();
    assert_eq!(dao.activate_proposal(idx, i64::MAX), Err(GovernError::Overflow));
    assert_eq!(status_at(&dao, idx, i64::MAX), ProposalStatus::Draft);
}

#[test]
fn status_derivation_is_idempotent() {
    let mut dao = setup();
    let idx = dao.create_proposal(key(2), 0, vec![], 0).unwrap();
    dao.activate_proposal(idx, 0).unwrap();
    dao.cast_vote(idx, key(20), 0, VoteSide::For, 60, 10).unwrap();
    for now in [0i64, 50, 99, 100, 1000] {
        assert_eq!(status_at(&dao, idx, now), status_at(&dao, idx, now));
    }
}

#[test]
fn quorum_snapshot_survives_param_change() {
    let mut dao = setup();
    let idx = dao.create_proposal(key(2), 0, vec![], 0).unwrap();
    dao.activate_proposal(idx, 0).unwrap();
    dao.cast_vote(idx, key(20), 0, VoteSide::For, 60, 10).unwrap();
    let raised = GovernanceParameters {
        voting_delay: 0,
        voting_period: 100,
        quorum_votes: 99,
        timelock_delay_seconds: TIMELOCK,
    };
    let event = dao.set_governance_params(key(1), raised).unwrap();
    assert_eq!(event.prev_params.quorum_votes, 50);
    assert_eq!(event.params.quorum_votes, 99);
    assert_eq!(dao.governor.params.quorum_votes, 99);
    // The proposal keeps the bar snapshotted at creation and still passes.
    assert_eq!(dao.proposals[0].proposal.quorum_votes, 50);
    assert_eq!(status_at(&dao, idx, 100), ProposalStatus::Succeeded);
}

#[test]
fn canceled_is_terminal() {
    let mut dao = setup();
    let idx = dao.create_proposal(key(2), 0, vec![], 1).unwrap();
    dao.activate_proposal(idx, 1).unwrap();
    dao.cancel_proposal(idx, key(2), 5).unwrap();
    for now in [5i64, 50, 1000] {
        assert_eq!(status_at(&dao, idx, now), ProposalStatus::Canceled);
    }
    assert_eq!(dao.activate_proposal(idx, 10), Err(GovernError::InvalidState));
    assert_eq!(
        dao.cast_vote(idx, key(20), 0, VoteSide::For, 5, 10),
        Err(GovernError::VotingClosed)
    );
    assert_eq!(dao.queue_proposal(idx, key(77), 10), Err(GovernError::InvalidState));
    assert_eq!(dao.mark_executed(idx, key(1), 10), Err(GovernError::InvalidState));
    assert_eq!(dao.cancel_proposal(idx, key(2), 10), Err(GovernError::InvalidState));
}

#[test]
fn executed_is_terminal() {
    let mut dao = setup();
    let idx = dao.create_proposal(key(2), 0, vec![], 0).unwrap();
    dao.activate_proposal(idx, 0).unwrap();
    dao.cast_vote(idx, key(20), 0, VoteSide::For, 60, 10).unwrap();
    dao.queue_proposal(idx, key(77), 100).unwrap();
    dao.mark_executed(idx, key(1), 111).unwrap();
    for now in [111i64, 200, 100000] {
        assert_eq!(status_at(&dao, idx, now), ProposalStatus::Executed);
    }
    assert_eq!(dao.cancel_proposal(idx, key(2), 120), Err(GovernError::InvalidState));
    assert_eq!(dao.queue_proposal(idx, key(78), 120), Err(GovernError::InvalidState));
    assert_eq!(
        dao.cast_vote(idx, key(21), 0, VoteSide::For, 5, 120),
        Err(GovernError::VotingClosed)
    );
    assert_eq!(dao.mark_executed(idx, key(1), 120), Err(GovernError::AlreadyExecuted));
}

#[test]
fn voting_outside_active_window_is_closed() {
    let mut dao = setup();
    let idx = dao.create_proposal(key(2), 0, vec![], 0).unwrap();
    // Draft: voting has not opened.
    assert_eq!(
        dao.cast_vote(idx, key(20), 0, VoteSide::For, 5, 0),
        Err(GovernError::VotingClosed)
    );
    dao.activate_proposal(idx, 0).unwrap();
    // Past the end of the window.
    assert_eq!(
        dao.cast_vote(idx, key(20), 0, VoteSide::For, 5, 100),
        Err(GovernError::VotingClosed)
    );
}

#[test]
fn unknown_proposal_is_stale() {
    let mut dao = setup();
    assert_eq!(
        dao.cast_vote(7, key(20), 0, VoteSide::For, 5, 0),
        Err(GovernError::StaleReference)
    );
    assert_eq!(dao.activate_proposal(7, 0), Err(GovernError::StaleReference));
    assert_eq!(dao.cancel_proposal(7, key(2), 0), Err(GovernError::StaleReference));
    assert_eq!(dao.queue_proposal(7, key(77), 0), Err(GovernError::StaleReference));
    assert_eq!(dao.mark_executed(7, key(1), 0), Err(GovernError::StaleReference));
}

#[test]
fn cancel_requires_proposer_or_authority() {
    let mut dao = setup();
    let idx = dao.create_proposal(key(2), 0, vec![], 1).unwrap();
    assert_eq!(dao.cancel_proposal(idx, key(40), 2), Err(GovernError::Unauthorized));
    // The execution authority may force-cancel.
    dao.cancel_proposal(idx, key(1), 2).unwrap();
    assert_eq!(status_at(&dao, idx, 2), ProposalStatus::Canceled);
}

#[test]
fn execution_requires_authority() {
    let mut dao = setup();
    let idx = dao.create_proposal(key(2), 0, vec![], 0).unwrap();
    dao.activate_proposal(idx, 0).unwrap();
    dao.cast_vote(idx, key(20), 0, VoteSide::For, 60, 10).unwrap();
    dao.queue_proposal(idx, key(77), 100).unwrap();
    assert_eq!(dao.mark_executed(idx, key(2), 111), Err(GovernError::Unauthorized));
}

#[test]
fn tally_overflow_is_rejected() {
    let mut dao = setup();
    let idx = dao.create_proposal(key(2), 0, vec![], 0).unwrap();
    dao.activate_proposal(idx, 0).unwrap();
    dao.cast_vote(idx, key(20), 0, VoteSide::For, u64::MAX, 10).unwrap();
    assert_eq!(
        dao.cast_vote(idx, key(21), 0, VoteSide::For, 1, 11),
        Err(GovernError::Overflow)
    );
    // The failed cast left no vote and no tally change behind.
    assert_eq!(dao.proposals[0].votes.len(), 1);
    assert_eq!(dao.proposals[0].proposal.for_votes, u64::MAX);
    // The other sides still have room.
    dao.cast_vote(idx, key(21), 0, VoteSide::Against, 1, 12).unwrap();
}

#[test]
fn activation_respects_voting_delay() {
    let params = GovernanceParameters {
        voting_delay: 20,
        voting_period: 100,
        quorum_votes: 50,
        timelock_delay_seconds: TIMELOCK,
    };
    let mut dao = Dao::new(key(10), key(11), 255, key(3), key(1), params);
    let idx = dao.create_proposal(key(2), 0, vec![], 5).unwrap();
    assert_eq!(dao.activate_proposal(idx, 24), Err(GovernError::InvalidState));
    dao.activate_proposal(idx, 25).unwrap();
    assert_eq!(dao.proposals[0].proposal.activated_at, 25);
    assert_eq!(dao.proposals[0].proposal.voting_ends_at, 125);
}

#[test]
fn proposal_counter_is_monotonic() {
    let mut dao = setup();
    let a = dao.create_proposal(key(2), 0, vec![], 0).unwrap();
    let b = dao.create_proposal(key(4), 0, vec![], 1).unwrap();
    assert_eq!(a, 0);
    assert_eq!(b, 1);
    assert_eq!(dao.governor.proposal_count, 2);
    assert_eq!(dao.proposals[0].proposal.index, 0);
    assert_eq!(dao.proposals[1].proposal.index, 1);
    assert_eq!(dao.proposals[1].proposal.proposer, key(4));
}
