//! The ledger model of one DAO: its Governor, its Proposals and the Votes
//! cast on them, with every lifecycle operation as a guarded, all-or-nothing
//! transition. Operations model serialized ledger transactions: each checks
//! its preconditions before any mutation, so an error leaves every record
//! unchanged.

use vstd::prelude::*;

use crate::error::GovernError;
use crate::keys::Pubkey;
use crate::state::{GovernanceParameters, Governor, Proposal, ProposalInstruction, Vote, VoteSide};
use crate::status::{spec_status, ProposalStatus};

verus! {

/// One proposal together with every vote cast on it.
#[derive(Clone, Debug)]
pub struct ProposalEntry {
    /// The proposal record.
    pub proposal: Proposal,
    /// The votes on it, one per voter.
    pub votes: Vec<Vote>,
}

/// How much vote `v` contributes to the tally of side `s`: its weight if it
/// took that side, nothing otherwise.
pub open spec fn side_contribution(v: Vote, s: VoteSide) -> int {
    if v.side == s {
        v.weight as int
    } else {
        0
    }
}

/// The tally of side `s` over a sequence of votes.
pub open spec fn tally(votes: Seq<Vote>, s: VoteSide) -> int
    decreases votes.len(),
{
    if votes.len() == 0 {
        0
    } else {
        tally(votes.drop_last(), s) + side_contribution(votes.last(), s)
    }
}

/// The total weight over a sequence of votes.
pub open spec fn total_weight(votes: Seq<Vote>) -> int
    decreases votes.len(),
{
    if votes.len() == 0 {
        0
    } else {
        total_weight(votes.drop_last()) + votes.last().weight
    }
}

/// Whether some vote by `voter` stands in `votes`.
pub open spec fn has_vote(votes: Seq<Vote>, voter: Pubkey) -> bool {
    exists|i: int| 0 <= i < votes.len() && votes[i].voter == voter
}

/// Appending a vote adds exactly its contribution to each side's tally.
proof fn lemma_tally_push(votes: Seq<Vote>, v: Vote, s: VoteSide)
    ensures
        tally(votes.push(v), s) == tally(votes, s) + side_contribution(v, s),
{
    assert(votes.push(v).drop_last() =~= votes);
}

/// Replacing one vote shifts each tally by the difference of the two
/// contributions.
proof fn lemma_tally_update(votes: Seq<Vote>, i: int, v: Vote, s: VoteSide)
    requires
        0 <= i < votes.len(),
    ensures
        tally(votes.update(i, v), s) == tally(votes, s) - side_contribution(votes[i], s)
            + side_contribution(v, s),
    decreases votes.len(),
{
    let u = votes.update(i, v);
    if i == votes.len() - 1 {
        assert(u.drop_last() =~= votes.drop_last());
    } else {
        assert(u.drop_last() =~= votes.drop_last().update(i, v));
        lemma_tally_update(votes.drop_last(), i, v, s);
        assert(u.last() == votes.last());
        assert(votes.drop_last()[i] == votes[i]);
    }
}

/// A tally is never negative.
proof fn lemma_tally_nonneg(votes: Seq<Vote>, s: VoteSide)
    ensures
        tally(votes, s) >= 0,
    decreases votes.len(),
{
    if votes.len() > 0 {
        lemma_tally_nonneg(votes.drop_last(), s);
    }
}

/// One vote's contribution never exceeds its side's tally.
proof fn lemma_tally_element_bound(votes: Seq<Vote>, i: int, s: VoteSide)
    requires
        0 <= i < votes.len(),
    ensures
        side_contribution(votes[i], s) <= tally(votes, s),
    decreases votes.len(),
{
    if i == votes.len() - 1 {
        lemma_tally_nonneg(votes.drop_last(), s);
    } else {
        lemma_tally_element_bound(votes.drop_last(), i, s);
        assert(votes.drop_last()[i] == votes[i]);
    }
}

/// Every vote's weight lands in exactly one side's tally, so the three
/// tallies partition the total weight.
proof fn lemma_tally_partition(votes: Seq<Vote>)
    ensures
        tally(votes, VoteSide::For) + tally(votes, VoteSide::Against) + tally(
            votes,
            VoteSide::Abstain,
        ) == total_weight(votes),
    decreases votes.len(),
{
    if votes.len() > 0 {
        lemma_tally_partition(votes.drop_last());
    }
}

impl ProposalEntry {
    /// Well-formedness: the three tallies mirror the votes exactly, no two
    /// votes share a voter, and every vote names this proposal's index.
    pub open spec fn wf(self) -> bool {
        &&& self.proposal.for_votes as int == tally(self.votes@, VoteSide::For)
        &&& self.proposal.against_votes as int == tally(self.votes@, VoteSide::Against)
        &&& self.proposal.abstain_votes as int == tally(self.votes@, VoteSide::Abstain)
        &&& forall|i: int, j: int|
            0 <= i < j < self.votes@.len() ==> self.votes@[i].voter != self.votes@[j].voter
        &&& forall|i: int|
            0 <= i < self.votes@.len() ==> (#[trigger] self.votes@[i]).proposal_index
                == self.proposal.index
    }
}

/// Tally conservation: in a well-formed entry the sum of the three tallies
/// equals the sum of `weight` over all votes referencing the proposal.
pub proof fn lemma_tally_conservation(e: ProposalEntry)
    requires
        e.wf(),
    ensures
        e.proposal.for_votes + e.proposal.against_votes + e.proposal.abstain_votes
            == total_weight(e.votes@),
{
    lemma_tally_partition(e.votes@);
}

/// Finds the index of `voter`'s vote among `votes`, if one stands there.
fn find_vote_index(votes: &Vec<Vote>, voter: Pubkey) -> (r: Option<usize>)
    ensures
        match r {
            Some(i) => i < votes@.len() && votes@[i as int].voter == voter,
            None => !has_vote(votes@, voter),
        },
{
    let mut i: usize = 0;
    while i < votes.len()
        invariant
            i <= votes@.len(),
            forall|j: int| 0 <= j < i ==> votes@[j].voter != voter,
        decreases votes@.len() - i,
    {
        if votes[i].voter == voter {
            return Some(i);
        }
        i = i + 1;
    }
    None
}

/// Overwrites the vote at `j`.
fn set_vote(votes: &mut Vec<Vote>, j: usize, v: Vote)
    requires
        j < old(votes).len(),
    ensures
        final(votes)@ == old(votes)@.update(j as int, v),
{
    let r = &mut votes[j];
    *r = v;
}

/// Borrows the entry at `i` mutably; the vector afterwards is the old one
/// with that slot replaced by whatever the caller leaves behind.
fn entry_mut(entries: &mut Vec<ProposalEntry>, i: usize) -> (e: &mut ProposalEntry)
    requires
        i < old(entries).len(),
    ensures
        *e == old(entries)@[i as int],
        final(entries)@ == old(entries)@.update(i as int, *final(e)),
{
    &mut entries[i]
}

/// Tally conservation over a whole DAO: every proposal's three tallies sum
/// to the total weight of the votes referencing it.
pub proof fn lemma_dao_tally_conservation(d: Dao, i: int)
    requires
        d.wf(),
        0 <= i < d.proposals@.len(),
    ensures
        d.proposals@[i].proposal.for_votes + d.proposals@[i].proposal.against_votes
            + d.proposals@[i].proposal.abstain_votes == total_weight(d.proposals@[i].votes@),
{
    lemma_tally_conservation(d.proposals@[i]);
}

/// At most one vote per (proposal, voter) pair: in a well-formed entry, two
/// vote records with the same voter are the same record.
pub proof fn lemma_vote_is_unique(e: ProposalEntry, i: int, j: int)
    requires
        e.wf(),
        0 <= i < e.votes@.len(),
        0 <= j < e.votes@.len(),
        e.votes@[i].voter == e.votes@[j].voter,
    ensures
        i == j,
{
}

/// One DAO's records: the root Governor and every proposal ever created
/// under it, each with its votes.
#[derive(Clone, Debug)]
pub struct Dao {
    /// Address of the governor record, the value each proposal's `governor`
    /// field carries.
    pub governor_key: Pubkey,
    /// The root record.
    pub governor: Governor,
    /// All proposals under the governor, in creation order; a proposal's
    /// `index` is its position here.
    pub proposals: Vec<ProposalEntry>,
}

/// The proposal record as freshly created: counters at zero, every
/// lifecycle timestamp unset, the quorum snapshotted.
pub open spec fn spec_new_proposal(
    governor: Pubkey,
    index: u64,
    bump: u8,
    proposer: Pubkey,
    quorum_votes: u64,
    created_at: i64,
    instructions: Vec<ProposalInstruction>,
) -> Proposal {
    Proposal {
        governor,
        index,
        bump,
        proposer,
        quorum_votes,
        for_votes: 0,
        against_votes: 0,
        abstain_votes: 0,
        canceled_at: 0,
        created_at,
        activated_at: 0,
        voting_ends_at: 0,
        queued_at: 0,
        executed_at: 0,
        queued_transaction: Pubkey { w0: 0, w1: 0, w2: 0, w3: 0 },
        instructions,
    }
}

impl Dao {
    /// Well-formedness of the whole DAO: the counter equals the number of
    /// proposals ever created, each entry is well-formed, sits at its own
    /// index, and names this governor.
    pub open spec fn wf(self) -> bool {
        &&& self.governor.proposal_count as int == self.proposals@.len()
        &&& forall|i: int|
            0 <= i < self.proposals@.len() ==> {
                &&& (#[trigger] self.proposals@[i]).wf()
                &&& self.proposals@[i].proposal.index as int == i
                &&& self.proposals@[i].proposal.governor == self.governor_key
            }
    }

    /// The timelock delay currently in force.
    pub open spec fn spec_timelock(self) -> i64 {
        self.governor.params.timelock_delay_seconds
    }

    /// Whether `proposal_index` names an existing proposal.
    pub open spec fn valid_index(self, proposal_index: u64) -> bool {
        (proposal_index as int) < self.proposals@.len()
    }

    /// The entry at `proposal_index`.
    pub open spec fn entry(self, proposal_index: u64) -> ProposalEntry {
        self.proposals@[proposal_index as int]
    }

    /// Derived status of proposal `proposal_index` at `now`, under the
    /// timelock delay now in force.
    pub open spec fn spec_proposal_status(self, proposal_index: u64, now: i64) -> ProposalStatus {
        spec_status(self.entry(proposal_index).proposal, self.spec_timelock(), now)
    }

    /// Creates a DAO with no proposals.
    pub fn new(
        governor_key: Pubkey,
        base: Pubkey,
        bump: u8,
        locker: Pubkey,
        smart_wallet: Pubkey,
        params: GovernanceParameters,
    ) -> (r: Dao)
        ensures
            r.wf(),
            r.governor_key == governor_key,
            r.governor == (Governor { base, bump, proposal_count: 0, locker, smart_wallet, params }),
            r.proposals@.len() == 0,
    {
        Dao {
            governor_key,
            governor: Governor { base, bump, proposal_count: 0, locker, smart_wallet, params },
            proposals: Vec::new(),
        }
    }

    /// Creates a proposal: allocates the next index from the governor's
    /// counter, snapshots the quorum threshold from the current parameters,
    /// stamps the creation time, and stores the instruction batch, which is
    /// fixed from here on. Fails with `Overflow` if and only if the counter
    /// would wrap; nothing changes then. Whether `proposer` is an eligible
    /// proposer is the voting-power source's call, made before this one.
    pub fn create_proposal(
        &mut self,
        proposer: Pubkey,
        bump: u8,
        instructions: Vec<ProposalInstruction>,
        now: i64,
    ) -> (r: Result<u64, GovernError>)
        requires
            old(self).wf(),
        ensures
            final(self).wf(),
            old(self).governor.proposal_count == u64::MAX ==> r == Err::<u64, GovernError>(
                GovernError::Overflow,
            ) && *final(self) == *old(self),
            old(self).governor.proposal_count < u64::MAX ==> {
                &&& r == Ok::<u64, GovernError>(old(self).governor.proposal_count)
                &&& final(self).governor_key == old(self).governor_key
                &&& final(self).governor == (Governor {
                    proposal_count: (old(self).governor.proposal_count + 1) as u64,
                    ..old(self).governor
                })
                &&& final(self).proposals@.len() == old(self).proposals@.len() + 1
                &&& forall|j: int|
                    0 <= j < old(self).proposals@.len() ==> final(self).proposals@[j] == old(
                        self,
                    ).proposals@[j]
                &&& final(self).proposals@.last().proposal == spec_new_proposal(
                    old(self).governor_key,
                    old(self).governor.proposal_count,
                    bump,
                    proposer,
                    old(self).governor.params.quorum_votes,
                    now,
                    instructions,
                )
                &&& final(self).proposals@.last().votes@ == Seq::<Vote>::empty()
            },
    {
        let count = self.governor.proposal_count;
        match count.checked_add(1) {
            None => Err(GovernError::Overflow),
            Some(next) => {
                let p = Proposal {
                    governor: self.governor_key,
                    index: count,
                    bump,
                    proposer,
                    quorum_votes: self.governor.params.quorum_votes,
                    for_votes: 0,
                    against_votes: 0,
                    abstain_votes: 0,
                    canceled_at: 0,
                    created_at: now,
                    activated_at: 0,
                    voting_ends_at: 0,
                    queued_at: 0,
                    executed_at: 0,
                    queued_transaction: Pubkey::zero(),
                    instructions,
                };
                self.proposals.push(ProposalEntry { proposal: p, votes: Vec::new() });
                self.governor.proposal_count = next;
                proof {
                    assert(self.proposals@.last().votes@ =~= Seq::<Vote>::empty());
                    assert forall|i: int| 0 <= i < self.proposals@.len() implies {
                        &&& (#[trigger] self.proposals@[i]).wf()
                        &&& self.proposals@[i].proposal.index as int == i
                        &&& self.proposals@[i].proposal.governor == self.governor_key
                    } by {
                        if i < old(self).proposals@.len() {
                            assert(self.proposals@[i] == old(self).proposals@[i]);
                        } else {
                            assert(self.proposals@[i] == self.proposals@.last());
                        }
                    }
                }
                Ok(count)
            },
        }
    }

    /// Casts a new vote by `voter` on proposal `proposal_index`. In check
    /// order this fails with `StaleReference` on an unknown proposal,
    /// `VotingClosed` unless the derived status is Active, `AlreadyVoted` if
    /// a vote by this voter already stands, and `Overflow` if the side's
    /// tally would wrap; otherwise it records the vote and adds its weight
    /// to exactly that side's tally. A zero weight is a recorded abstention
    /// that contributes nothing. Any failure leaves every record unchanged.
    pub fn cast_vote(
        &mut self,
        proposal_index: u64,
        voter: Pubkey,
        bump: u8,
        side: VoteSide,
        weight: u64,
        now: i64,
    ) -> (r: Result<(), GovernError>)
        requires
            old(self).wf(),
        ensures
            final(self).wf(),
            r == (if !old(self).valid_index(proposal_index) {
                Err::<(), GovernError>(GovernError::StaleReference)
            } else if old(self).spec_proposal_status(proposal_index, now) != ProposalStatus::Active {
                Err::<(), GovernError>(GovernError::VotingClosed)
            } else if has_vote(old(self).entry(proposal_index).votes@, voter) {
                Err::<(), GovernError>(GovernError::AlreadyVoted)
            } else if tally(old(self).entry(proposal_index).votes@, side) + weight > u64::MAX {
                Err::<(), GovernError>(GovernError::Overflow)
            } else {
                Ok::<(), GovernError>(())
            }),
            r is Err ==> *final(self) == *old(self),
            r is Ok ==> {
                &&& final(self).governor == old(self).governor
                &&& final(self).governor_key == old(self).governor_key
                &&& final(self).proposals@.len() == old(self).proposals@.len()
                &&& forall|j: int|
                    0 <= j < old(self).proposals@.len() && j != proposal_index as int
                        ==> final(self).proposals@[j] == old(self).proposals@[j]
                &&& final(self).entry(proposal_index).votes@ == old(self).entry(
                    proposal_index,
                ).votes@.push(Vote { proposal_index, voter, bump, side, weight })
                &&& final(self).entry(proposal_index).proposal == spec_bump_tally(
                    old(self).entry(proposal_index).proposal,
                    side,
                    weight,
                )
            },
    {
        if proposal_index >= self.proposals.len() as u64 {
            return Err(GovernError::StaleReference);
        }
        let i = proposal_index as usize;
        let timelock = self.governor.params.timelock_delay_seconds;
        let status = self.proposals[i].proposal.status(timelock, now);
        if status != ProposalStatus::Active {
            return Err(GovernError::VotingClosed);
        }
        match find_vote_index(&self.proposals[i].votes, voter) {
            Some(j) => {
                proof {
                    assert(old(self).entry(proposal_index).votes@[j as int].voter == voter);
                }
                return Err(GovernError::AlreadyVoted);
            },
            None => {},
        }
        let cur: u64 = match side {
            VoteSide::For => self.proposals[i].proposal.for_votes,
            VoteSide::Against => self.proposals[i].proposal.against_votes,
            VoteSide::Abstain => self.proposals[i].proposal.abstain_votes,
        };
        let nv: u64 = match cur.checked_add(weight) {
            None => {
                return Err(GovernError::Overflow);
            },
            Some(nv) => nv,
        };
        let ghost old_entry = self.proposals@[i as int];
        let entry = entry_mut(&mut self.proposals, i);
        match side {
            VoteSide::For => {
                entry.proposal.for_votes = nv;
            },
            VoteSide::Against => {
                entry.proposal.against_votes = nv;
            },
            VoteSide::Abstain => {
                entry.proposal.abstain_votes = nv;
            },
        }
        let v = Vote { proposal_index, voter, bump, side, weight };
        entry.votes.push(v);
        proof {
            lemma_tally_push(old_entry.votes@, v, VoteSide::For);
            lemma_tally_push(old_entry.votes@, v, VoteSide::Against);
            lemma_tally_push(old_entry.votes@, v, VoteSide::Abstain);
            let new_entry = self.proposals@[i as int];
            assert forall|a: int, b: int|
                0 <= a < b < new_entry.votes@.len() implies new_entry.votes@[a].voter
                != new_entry.votes@[b].voter by {
                if b < old_entry.votes@.len() {
                    assert(old_entry.votes@[a].voter != old_entry.votes@[b].voter);
                } else {
                    assert(!has_vote(old_entry.votes@, voter));
                    assert(old_entry.votes@[a].voter != voter);
                }
            }
            assert forall|k: int| 0 <= k < self.proposals@.len() implies {
                &&& (#[trigger] self.proposals@[k]).wf()
                &&& self.proposals@[k].proposal.index as int == k
                &&& self.proposals@[k].proposal.governor == self.governor_key
            } by {
                if k != i as int {
                    assert(self.proposals@[k] == old(self).proposals@[k]);
                }
            }
        }
        Ok(())
    }

    /// Changes `voter`'s standing vote on proposal `proposal_index` to
    /// `new_side` with the freshly queried `new_weight`. In check order this
    /// fails with `StaleReference` on an unknown proposal, `VotingClosed`
    /// unless the derived status is Active, `StaleReference` again if no
    /// vote by this voter stands, and `Overflow` if the new side's tally
    /// would wrap; otherwise, atomically, the old side's tally loses the
    /// stored weight, the new side's gains the new weight, and the vote
    /// records its new side and weight. Any failure leaves every record
    /// unchanged; no state where a tally reflects neither the old nor the
    /// new weight is ever observable.
    pub fn change_vote(
        &mut self,
        proposal_index: u64,
        voter: Pubkey,
        new_side: VoteSide,
        new_weight: u64,
        now: i64,
    ) -> (r: Result<(), GovernError>)
        requires
            old(self).wf(),
        ensures
            final(self).wf(),
            r == (if !old(self).valid_index(proposal_index) {
                Err::<(), GovernError>(GovernError::StaleReference)
            } else if old(self).spec_proposal_status(proposal_index, now) != ProposalStatus::Active {
                Err::<(), GovernError>(GovernError::VotingClosed)
            } else if !has_vote(old(self).entry(proposal_index).votes@, voter) {
                Err::<(), GovernError>(GovernError::StaleReference)
            } else if tally(old(self).entry(proposal_index).votes@, new_side) - side_contribution(
                vote_of(old(self).entry(proposal_index).votes@, voter),
                new_side,
            ) + new_weight > u64::MAX {
                Err::<(), GovernError>(GovernError::Overflow)
            } else {
                Ok::<(), GovernError>(())
            }),
            r is Err ==> *final(self) == *old(self),
            r is Ok ==> {
                let old_votes = old(self).entry(proposal_index).votes@;
                let old_v = vote_of(old_votes, voter);
                let new_v = Vote {
                    proposal_index,
                    voter,
                    bump: old_v.bump,
                    side: new_side,
                    weight: new_weight,
                };
                &&& final(self).governor == old(self).governor
                &&& final(self).governor_key == old(self).governor_key
                &&& final(self).proposals@.len() == old(self).proposals@.len()
                &&& forall|j: int|
                    0 <= j < old(self).proposals@.len() && j != proposal_index as int
                        ==> final(self).proposals@[j] == old(self).proposals@[j]
                &&& exists|j: int|
                    0 <= j < old_votes.len() && old_votes[j] == old_v && final(self).entry(
                        proposal_index,
                    ).votes@ == old_votes.update(j, new_v)
                &&& final(self).entry(proposal_index).proposal == spec_retally(
                    old(self).entry(proposal_index).proposal,
                    old_v,
                    new_v,
                )
            },
    {
        if proposal_index >= self.proposals.len() as u64 {
            return Err(GovernError::StaleReference);
        }
        let i = proposal_index as usize;
        let timelock = self.governor.params.timelock_delay_seconds;
        let status = self.proposals[i].proposal.status(timelock, now);
        if status != ProposalStatus::Active {
            return Err(GovernError::VotingClosed);
        }
        let j: usize = match find_vote_index(&self.proposals[i].votes, voter) {
            None => {
                return Err(GovernError::StaleReference);
            },
            Some(j) => j,
        };
        let ghost old_votes = self.proposals@[i as int].votes@;
        proof {
            let jj = choose|k: int|
                0 <= k < old_votes.len() && old_votes[k].voter == voter;
            if (j as int) < jj {
                assert(old_votes[j as int].voter != old_votes[jj].voter);
            }
            if jj < j as int {
                assert(old_votes[jj].voter != old_votes[j as int].voter);
            }
            assert(vote_of(old_votes, voter) == old_votes[j as int]);
        }
        let v: Vote = self.proposals[i].votes[j];
        let mut f: u64 = self.proposals[i].proposal.for_votes;
        let mut a: u64 = self.proposals[i].proposal.against_votes;
        let mut ab: u64 = self.proposals[i].proposal.abstain_votes;
        proof {
            lemma_tally_element_bound(old_votes, j as int, VoteSide::For);
            lemma_tally_element_bound(old_votes, j as int, VoteSide::Against);
            lemma_tally_element_bound(old_votes, j as int, VoteSide::Abstain);
        }
        match v.side {
            VoteSide::For => {
                f = f - v.weight;
            },
            VoteSide::Against => {
                a = a - v.weight;
            },
            VoteSide::Abstain => {
                ab = ab - v.weight;
            },
        }
        let cur: u64 = match new_side {
            VoteSide::For => f,
            VoteSide::Against => a,
            VoteSide::Abstain => ab,
        };
        let nv: u64 = match cur.checked_add(new_weight) {
            None => {
                return Err(GovernError::Overflow);
            },
            Some(nv) => nv,
        };
        match new_side {
            VoteSide::For => {
                f = nv;
            },
            VoteSide::Against => {
                a = nv;
            },
            VoteSide::Abstain => {
                ab = nv;
            },
        }
        let new_v = Vote { proposal_index, voter, bump: v.bump, side: new_side, weight: new_weight };
        let entry = entry_mut(&mut self.proposals, i);
        entry.proposal.for_votes = f;
        entry.proposal.against_votes = a;
        entry.proposal.abstain_votes = ab;
        set_vote(&mut entry.votes, j, new_v);
        proof {
            lemma_tally_update(old_votes, j as int, new_v, VoteSide::For);
            lemma_tally_update(old_votes, j as int, new_v, VoteSide::Against);
            lemma_tally_update(old_votes, j as int, new_v, VoteSide::Abstain);
            let new_entry = self.proposals@[i as int];
            assert forall|a1: int, b1: int|
                0 <= a1 < b1 < new_entry.votes@.len() implies new_entry.votes@[a1].voter
                != new_entry.votes@[b1].voter by {
                assert(old_votes[a1].voter != old_votes[b1].voter);
            }
            assert forall|k: int| 0 <= k < self.proposals@.len() implies {
                &&& (#[trigger] self.proposals@[k]).wf()
                &&& self.proposals@[k].proposal.index as int == k
                &&& self.proposals@[k].proposal.governor == self.governor_key
            } by {
                if k != i as int {
                    assert(self.proposals@[k] == old(self).proposals@[k]);
                }
            }
        }
        Ok(())
    }

    /// Activates proposal `proposal_index`: voting opens now and ends after
    /// the voting period in force. In check order this fails with
    /// `StaleReference` on an unknown proposal, `InvalidState` unless the
    /// status is Draft and the voting delay since creation has elapsed, and
    /// `Overflow` if the end of voting would exceed the representable time
    /// range. Any failure leaves every record unchanged.
    pub fn activate_proposal(&mut self, proposal_index: u64, now: i64) -> (r: Result<
        (),
        GovernError,
    >)
        requires
            old(self).wf(),
        ensures
            final(self).wf(),
            r == (if !old(self).valid_index(proposal_index) {
                Err::<(), GovernError>(GovernError::StaleReference)
            } else if old(self).spec_proposal_status(proposal_index, now) != ProposalStatus::Draft {
                Err::<(), GovernError>(GovernError::InvalidState)
            } else if (now as int) < old(self).entry(proposal_index).proposal.created_at as int
                + old(self).governor.params.voting_delay as int {
                Err::<(), GovernError>(GovernError::InvalidState)
            } else if now as int + old(self).governor.params.voting_period as int > i64::MAX {
                Err::<(), GovernError>(GovernError::Overflow)
            } else {
                Ok::<(), GovernError>(())
            }),
            r is Err ==> *final(self) == *old(self),
            r is Ok ==> {
                &&& final(self).governor == old(self).governor
                &&& final(self).governor_key == old(self).governor_key
                &&& final(self).proposals@.len() == old(self).proposals@.len()
                &&& forall|j: int|
                    0 <= j < old(self).proposals@.len() && j != proposal_index as int
                        ==> final(self).proposals@[j] == old(self).proposals@[j]
                &&& final(self).entry(proposal_index).votes@ == old(self).entry(
                    proposal_index,
                ).votes@
                &&& final(self).entry(proposal_index).proposal == (Proposal {
                    activated_at: now,
                    voting_ends_at: (now + old(self).governor.params.voting_period) as i64,
                    ..old(self).entry(proposal_index).proposal
                })
            },
    {
        if proposal_index >= self.proposals.len() as u64 {
            return Err(GovernError::StaleReference);
        }
        let i = proposal_index as usize;
        let timelock = self.governor.params.timelock_delay_seconds;
        let status = self.proposals[i].proposal.status(timelock, now);
        if status != ProposalStatus::Draft {
            return Err(GovernError::InvalidState);
        }
        let created = self.proposals[i].proposal.created_at;
        let delay = self.governor.params.voting_delay;
        if (now as i128) < (created as i128) + (delay as i128) {
            return Err(GovernError::InvalidState);
        }
        let ends: i64 = match now.checked_add_unsigned(self.governor.params.voting_period) {
            None => {
                return Err(GovernError::Overflow);
            },
            Some(e) => e,
        };
        let entry = entry_mut(&mut self.proposals, i);
        entry.proposal.activated_at = now;
        entry.proposal.voting_ends_at = ends;
        proof {
            assert forall|k: int| 0 <= k < self.proposals@.len() implies {
                &&& (#[trigger] self.proposals@[k]).wf()
                &&& self.proposals@[k].proposal.index as int == k
                &&& self.proposals@[k].proposal.governor == self.governor_key
            } by {
                if k != i as int {
                    assert(self.proposals@[k] == old(self).proposals@[k]);
                }
            }
        }
        Ok(())
    }

    /// Cancels proposal `proposal_index` at the caller's request;
    /// irreversible. In check order this fails with `StaleReference` on an
    /// unknown proposal, `InvalidState` unless the status is Draft, Active,
    /// Succeeded or Queued, and `Unauthorized` unless the caller is the
    /// original proposer or the execution authority. Any failure leaves
    /// every record unchanged.
    pub fn cancel_proposal(&mut self, proposal_index: u64, caller: Pubkey, now: i64) -> (r: Result<
        (),
        GovernError,
    >)
        requires
            old(self).wf(),
        ensures
            final(self).wf(),
            r == (if !old(self).valid_index(proposal_index) {
                Err::<(), GovernError>(GovernError::StaleReference)
            } else if !{
                let st = old(self).spec_proposal_status(proposal_index, now);
                ||| st == ProposalStatus::Draft
                ||| st == ProposalStatus::Active
                ||| st == ProposalStatus::Succeeded
                ||| st == ProposalStatus::Queued
            } {
                Err::<(), GovernError>(GovernError::InvalidState)
            } else if caller != old(self).entry(proposal_index).proposal.proposer && caller != old(
                self,
            ).governor.smart_wallet {
                Err::<(), GovernError>(GovernError::Unauthorized)
            } else {
                Ok::<(), GovernError>(())
            }),
            r is Err ==> *final(self) == *old(self),
            r is Ok ==> {
                &&& final(self).governor == old(self).governor
                &&& final(self).governor_key == old(self).governor_key
                &&& final(self).proposals@.len() == old(self).proposals@.len()
                &&& forall|j: int|
                    0 <= j < old(self).proposals@.len() && j != proposal_index as int
                        ==> final(self).proposals@[j] == old(self).proposals@[j]
                &&& final(self).entry(proposal_index).votes@ == old(self).entry(
                    proposal_index,
                ).votes@
                &&& final(self).entry(proposal_index).proposal == (Proposal {
                    canceled_at: now,
                    ..old(self).entry(proposal_index).proposal
                })
            },
    {
        if proposal_index >= self.proposals.len() as u64 {
            return Err(GovernError::StaleReference);
        }
        let i = proposal_index as usize;
        let timelock = self.governor.params.timelock_delay_seconds;
        let status = self.proposals[i].proposal.status(timelock, now);
        let cancelable = status == ProposalStatus::Draft || status == ProposalStatus::Active
            || status == ProposalStatus::Succeeded || status == ProposalStatus::Queued;
        if !cancelable {
            return Err(GovernError::InvalidState);
        }
        if caller != self.proposals[i].proposal.proposer && caller != self.governor.smart_wallet {
            return Err(GovernError::Unauthorized);
        }
        let entry = entry_mut(&mut self.proposals, i);
        entry.proposal.canceled_at = now;
        proof {
            assert forall|k: int| 0 <= k < self.proposals@.len() implies {
                &&& (#[trigger] self.proposals@[k]).wf()
                &&& self.proposals@[k].proposal.index as int == k
                &&& self.proposals@[k].proposal.governor == self.governor_key
            } by {
                if k != i as int {
                    assert(self.proposals@[k] == old(self).proposals@[k]);
                }
            }
        }
        Ok(())
    }

    /// Queues proposal `proposal_index` with the execution authority:
    /// records the authority's pending-transaction reference and the queue
    /// time, starting the timelock. In check order this fails with
    /// `StaleReference` on an unknown proposal and `InvalidState` unless the
    /// status is Succeeded. Any failure leaves every record unchanged.
    pub fn queue_proposal(
        &mut self,
        proposal_index: u64,
        queued_transaction: Pubkey,
        now: i64,
    ) -> (r: Result<(), GovernError>)
        requires
            old(self).wf(),
        ensures
            final(self).wf(),
            r == (if !old(self).valid_index(proposal_index) {
                Err::<(), GovernError>(GovernError::StaleReference)
            } else if old(self).spec_proposal_status(proposal_index, now)
                != ProposalStatus::Succeeded {
                Err::<(), GovernError>(GovernError::InvalidState)
            } else {
                Ok::<(), GovernError>(())
            }),
            r is Err ==> *final(self) == *old(self),
            r is Ok ==> {
                &&& final(self).governor == old(self).governor
                &&& final(self).governor_key == old(self).governor_key
                &&& final(self).proposals@.len() == old(self).proposals@.len()
                &&& forall|j: int|
                    0 <= j < old(self).proposals@.len() && j != proposal_index as int
                        ==> final(self).proposals@[j] == old(self).proposals@[j]
                &&& final(self).entry(proposal_index).votes@ == old(self).entry(
                    proposal_index,
                ).votes@
                &&& final(self).entry(proposal_index).proposal == (Proposal {
                    queued_at: now,
                    queued_transaction,
                    ..old(self).entry(proposal_index).proposal
                })
            },
    {
        if proposal_index >= self.proposals.len() as u64 {
            return Err(GovernError::StaleReference);
        }
        let i = proposal_index as usize;
        let timelock = self.governor.params.timelock_delay_seconds;
        let status = self.proposals[i].proposal.status(timelock, now);
        if status != ProposalStatus::Succeeded {
            return Err(GovernError::InvalidState);
        }
        let entry = entry_mut(&mut self.proposals, i);
        entry.proposal.queued_at = now;
        entry.proposal.queued_transaction = queued_transaction;
        proof {
            assert forall|k: int| 0 <= k < self.proposals@.len() implies {
                &&& (#[trigger] self.proposals@[k]).wf()
                &&& self.proposals@[k].proposal.index as int == k
                &&& self.proposals@[k].proposal.governor == self.governor_key
            } by {
                if k != i as int {
                    assert(self.proposals@[k] == old(self).proposals@[k]);
                }
            }
        }
        Ok(())
    }

    /// Records that the execution authority has executed proposal
    /// `proposal_index`; thereafter its status is Executed, permanently. In
    /// check order this fails with `StaleReference` on an unknown proposal,
    /// `Unauthorized` unless the caller is the execution authority,
    /// `AlreadyExecuted` on re-invocation, and `InvalidState` unless the
    /// status is Ready. Any failure leaves every record unchanged.
    pub fn mark_executed(&mut self, proposal_index: u64, caller: Pubkey, now: i64) -> (r: Result<
        (),
        GovernError,
    >)
        requires
            old(self).wf(),
        ensures
            final(self).wf(),
            r == (if !old(self).valid_index(proposal_index) {
                Err::<(), GovernError>(GovernError::StaleReference)
            } else if caller != old(self).governor.smart_wallet {
                Err::<(), GovernError>(GovernError::Unauthorized)
            } else if old(self).entry(proposal_index).proposal.executed_at != 0 {
                Err::<(), GovernError>(GovernError::AlreadyExecuted)
            } else if old(self).spec_proposal_status(proposal_index, now) != ProposalStatus::Ready {
                Err::<(), GovernError>(GovernError::InvalidState)
            } else {
                Ok::<(), GovernError>(())
            }),
            r is Err ==> *final(self) == *old(self),
            r is Ok ==> {
                &&& final(self).governor == old(self).governor
                &&& final(self).governor_key == old(self).governor_key
                &&& final(self).proposals@.len() == old(self).proposals@.len()
                &&& forall|j: int|
                    0 <= j < old(self).proposals@.len() && j != proposal_index as int
                        ==> final(self).proposals@[j] == old(self).proposals@[j]
                &&& final(self).entry(proposal_index).votes@ == old(self).entry(
                    proposal_index,
                ).votes@
                &&& final(self).entry(proposal_index).proposal == (Proposal {
                    executed_at: now,
                    ..old(self).entry(proposal_index).proposal
                })
            },
    {
        if proposal_index >= self.proposals.len() as u64 {
            return Err(GovernError::StaleReference);
        }
        let i = proposal_index as usize;
        if caller != self.governor.smart_wallet {
            return Err(GovernError::Unauthorized);
        }
        if self.proposals[i].proposal.executed_at != 0 {
            return Err(GovernError::AlreadyExecuted);
        }
        let timelock = self.governor.params.timelock_delay_seconds;
        let status = self.proposals[i].proposal.status(timelock, now);
        if status != ProposalStatus::Ready {
            return Err(GovernError::InvalidState);
        }
        let entry = entry_mut(&mut self.proposals, i);
        entry.proposal.executed_at = now;
        proof {
            assert forall|k: int| 0 <= k < self.proposals@.len() implies {
                &&& (#[trigger] self.proposals@[k]).wf()
                &&& self.proposals@[k].proposal.index as int == k
                &&& self.proposals@[k].proposal.governor == self.governor_key
            } by {
                if k != i as int {
                    assert(self.proposals@[k] == old(self).proposals@[k]);
                }
            }
        }
        Ok(())
    }

    /// Overwrites the governance parameters at the execution authority's
    /// request and reports the before/after pair. Fails with `Unauthorized`,
    /// changing nothing, unless the caller is exactly the execution
    /// authority. The values are accepted as given, and no existing
    /// proposal changes: each keeps its snapshotted quorum and timestamps.
    pub fn set_governance_params(&mut self, caller: Pubkey, params: GovernanceParameters) -> (r:
        Result<GovernorSetParamsEvent, GovernError>)
        requires
            old(self).wf(),
        ensures
            final(self).wf(),
            caller != old(self).governor.smart_wallet ==> r == Err::<
                GovernorSetParamsEvent,
                GovernError,
            >(GovernError::Unauthorized) && *final(self) == *old(self),
            caller == old(self).governor.smart_wallet ==> {
                &&& r == Ok::<GovernorSetParamsEvent, GovernError>(GovernorSetParamsEvent {
                    governor: old(self).governor_key,
                    prev_params: old(self).governor.params,
                    params,
                })
                &&& final(self).governor == (Governor { params, ..old(self).governor })
                &&& final(self).governor_key == old(self).governor_key
                &&& final(self).proposals == old(self).proposals
            },
    {
        if caller != self.governor.smart_wallet {
            return Err(GovernError::Unauthorized);
        }
        let prev_params = self.governor.params;
        self.governor.params = params;
        Ok(GovernorSetParamsEvent { governor: self.governor_key, prev_params, params })
    }

    /// Replaces the reference to the voting-power source at the execution
    /// authority's request and reports the before/after pair. Fails with
    /// `Unauthorized`, changing nothing, unless the caller is exactly the
    /// execution authority; no proposal changes either way.
    pub fn set_electorate(&mut self, caller: Pubkey, new_voter: Pubkey) -> (r: Result<
        GovernorSetElectorateEvent,
        GovernError,
    >)
        requires
            old(self).wf(),
        ensures
            final(self).wf(),
            caller != old(self).governor.smart_wallet ==> r == Err::<
                GovernorSetElectorateEvent,
                GovernError,
            >(GovernError::Unauthorized) && *final(self) == *old(self),
            caller == old(self).governor.smart_wallet ==> {
                &&& r == Ok::<GovernorSetElectorateEvent, GovernError>(GovernorSetElectorateEvent {
                    governor: old(self).governor_key,
                    prev_voter: old(self).governor.locker,
                    new_voter,
                })
                &&& final(self).governor == (Governor { locker: new_voter, ..old(self).governor })
                &&& final(self).governor_key == old(self).governor_key
                &&& final(self).proposals == old(self).proposals
            },
    {
        if caller != self.governor.smart_wallet {
            return Err(GovernError::Unauthorized);
        }
        let prev_voter = self.governor.locker;
        self.governor.locker = new_voter;
        Ok(GovernorSetElectorateEvent { governor: self.governor_key, prev_voter, new_voter })
    }
}

/// Reported by [`Dao::set_governance_params`]: the governor whose
/// parameters changed, with the before and after values.
#[derive(Clone, Copy, Debug, PartialEq, Eq, Structural)]
pub struct GovernorSetParamsEvent {
    /// The governor whose parameters changed.
    pub governor: Pubkey,
    /// Parameters before the change.
    pub prev_params: GovernanceParameters,
    /// Parameters after the change.
    pub params: GovernanceParameters,
}

/// Reported by [`Dao::set_electorate`]: the governor whose voting-power
/// source changed, with the before and after references.
#[derive(Clone, Copy, Debug, PartialEq, Eq, Structural)]
pub struct GovernorSetElectorateEvent {
    /// The governor whose electorate changed.
    pub governor: Pubkey,
    /// The voting-power source before the change.
    pub prev_voter: Pubkey,
    /// The voting-power source after the change.
    pub new_voter: Pubkey,
}

/// The vote by `voter` among `votes`, where one stands.
pub open spec fn vote_of(votes: Seq<Vote>, voter: Pubkey) -> Vote {
    votes[choose|i: int| 0 <= i < votes.len() && votes[i].voter == voter]
}

/// `p` with the tallies shifted from `old_v`'s side and weight to `new_v`'s:
/// each side loses `old_v`'s contribution and gains `new_v`'s.
pub open spec fn spec_retally(p: Proposal, old_v: Vote, new_v: Vote) -> Proposal {
    Proposal {
        for_votes: (p.for_votes - side_contribution(old_v, VoteSide::For) + side_contribution(
            new_v,
            VoteSide::For,
        )) as u64,
        against_votes: (p.against_votes - side_contribution(old_v, VoteSide::Against)
            + side_contribution(new_v, VoteSide::Against)) as u64,
        abstain_votes: (p.abstain_votes - side_contribution(old_v, VoteSide::Abstain)
            + side_contribution(new_v, VoteSide::Abstain)) as u64,
        ..p
    }
}

/// `p` with side `s`'s tally increased by `w` and nothing else changed.
pub open spec fn spec_bump_tally(p: Proposal, s: VoteSide, w: u64) -> Proposal {
    Proposal {
        for_votes: if s == VoteSide::For {
            (p.for_votes + w) as u64
        } else {
            p.for_votes
        },
        against_votes: if s == VoteSide::Against {
            (p.against_votes + w) as u64
        } else {
            p.against_votes
        },
        abstain_votes: if s == VoteSide::Abstain {
            (p.abstain_votes + w) as u64
        } else {
            p.abstain_votes
        },
        ..p
    }
}

} // verus!
