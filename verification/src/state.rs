//! Record definitions for the governance core: the Governor root record, its
//! Proposals, the Votes cast on them, and the opaque instruction batches a
//! Proposal carries.

use vstd::prelude::*;

use crate::keys::Pubkey;

verus! {

/// Governance configuration, embedded in a [`Governor`]. Values are accepted
/// as given: out-of-range settings (for example a zero voting period) are a
/// deliberate permissive surface and are not validated here.
#[derive(Clone, Copy, Debug, PartialEq, Eq, Structural)]
pub struct GovernanceParameters {
    /// Delay in seconds between a proposal's creation and its earliest
    /// activation.
    pub voting_delay: u64,
    /// Duration of the voting window in seconds, once activated.
    pub voting_period: u64,
    /// Minimum number of "for" votes for a quorum; snapshotted into each
    /// proposal at creation, so later changes never move an existing
    /// proposal's passing bar.
    pub quorum_votes: u64,
    /// Minimum seconds a succeeded proposal must sit in the execution queue
    /// before it may run.
    pub timelock_delay_seconds: i64,
}

impl Default for GovernanceParameters {
    /// All-zero parameters.
    fn default() -> (r: GovernanceParameters)
        ensures
            r == (GovernanceParameters {
                voting_delay: 0,
                voting_period: 0,
                quorum_votes: 0,
                timelock_delay_seconds: 0,
            }),
    {
        GovernanceParameters { voting_delay: 0, voting_period: 0, quorum_votes: 0, timelock_delay_seconds: 0 }
    }
}

/// The per-DAO root record: holds the governance parameters, the monotonic
/// proposal counter, and the references to the voting-power source and the
/// execution authority.
#[derive(Clone, Copy, Debug, PartialEq, Eq, Structural)]
pub struct Governor {
    /// Base address from which this governor's own address is derived.
    pub base: Pubkey,
    /// Address-derivation salt.
    pub bump: u8,
    /// The number of proposals ever created under this governor; the next
    /// proposal's index.
    pub proposal_count: u64,
    /// The voting-power source: activates proposals and reports voter weight.
    pub locker: Pubkey,
    /// The execution authority: executes queued proposals and is the only
    /// principal allowed to change the governance parameters.
    pub smart_wallet: Pubkey,
    /// Current governance parameters.
    pub params: GovernanceParameters,
}

/// A proposal: a pending, time-boxed, voted-on batch of instructions.
/// An unset timestamp is stored as zero.
#[derive(Clone, Debug)]
pub struct Proposal {
    /// Address of the owning governor.
    pub governor: Pubkey,
    /// Unique id under the governor, assigned at creation from the
    /// governor's counter and never reused.
    pub index: u64,
    /// Address-derivation salt.
    pub bump: u8,
    /// Address of the proposer.
    pub proposer: Pubkey,
    /// The quorum threshold, copied from the governor's parameters at
    /// creation time and immutable thereafter.
    pub quorum_votes: u64,
    /// Current weight of votes in favor.
    pub for_votes: u64,
    /// Current weight of votes in opposition.
    pub against_votes: u64,
    /// Current weight of abstaining votes.
    pub abstain_votes: u64,
    /// When the proposal was canceled, or zero.
    pub canceled_at: i64,
    /// When the proposal was created.
    pub created_at: i64,
    /// When the proposal was activated and voting began, or zero.
    pub activated_at: i64,
    /// When voting ends; set at activation, zero before.
    pub voting_ends_at: i64,
    /// When the proposal was queued for execution, or zero.
    pub queued_at: i64,
    /// When the execution authority reported execution, or zero.
    pub executed_at: i64,
    /// The execution authority's pending-transaction record, set at queue
    /// time; the all-zero address before.
    pub queued_transaction: Pubkey,
    /// The ordered instruction batch to execute; fixed at creation and never
    /// mutated afterward.
    pub instructions: Vec<ProposalInstruction>,
}

impl Default for Proposal {
    /// The all-zero proposal: every address zero, every counter and
    /// timestamp zero, and an empty instruction batch.
    fn default() -> (r: Proposal)
        ensures
            r.governor == (Pubkey { w0: 0, w1: 0, w2: 0, w3: 0 }),
            r.index == 0,
            r.bump == 0,
            r.proposer == (Pubkey { w0: 0, w1: 0, w2: 0, w3: 0 }),
            r.quorum_votes == 0,
            r.for_votes == 0,
            r.against_votes == 0,
            r.abstain_votes == 0,
            r.canceled_at == 0,
            r.created_at == 0,
            r.activated_at == 0,
            r.voting_ends_at == 0,
            r.queued_at == 0,
            r.executed_at == 0,
            r.queued_transaction == (Pubkey { w0: 0, w1: 0, w2: 0, w3: 0 }),
            r.instructions@.len() == 0,
    {
        Proposal {
            governor: Pubkey::zero(),
            index: 0,
            bump: 0,
            proposer: Pubkey::zero(),
            quorum_votes: 0,
            for_votes: 0,
            against_votes: 0,
            abstain_votes: 0,
            canceled_at: 0,
            created_at: 0,
            activated_at: 0,
            voting_ends_at: 0,
            queued_at: 0,
            executed_at: 0,
            queued_transaction: Pubkey::zero(),
            instructions: Vec::new(),
        }
    }
}

/// In-memory footprint in bytes of a [`Proposal`]'s fixed fields, with every
/// field padded to 8-byte alignment (the salt byte carries 7 bytes of
/// padding, and the instruction vector header takes 24 bytes).
pub const PROPOSAL_FIXED_SPACE: usize = 216;

impl Proposal {
    /// Storage space in bytes that a proposal with the given instruction
    /// batch rents: an 8-byte record tag, the padded fixed fields, a 4-byte
    /// vector length prefix, and each instruction's own space.
    pub fn space(instructions: Vec<ProposalInstruction>) -> (r: usize)
        requires
            8 + 4 + PROPOSAL_FIXED_SPACE + spec_instructions_space(instructions@) <= usize::MAX,
        ensures
            r == 8 + 4 + PROPOSAL_FIXED_SPACE + spec_instructions_space(instructions@),
    {
        let mut total: usize = 8 + 4 + PROPOSAL_FIXED_SPACE;
        let mut i: usize = 0;
        while i < instructions.len()
            invariant
                i <= instructions@.len(),
                total == 8 + 4 + PROPOSAL_FIXED_SPACE + spec_instructions_space(
                    instructions@.take(i as int),
                ),
                8 + 4 + PROPOSAL_FIXED_SPACE + spec_instructions_space(instructions@)
                    <= usize::MAX,
            decreases instructions@.len() - i,
        {
            proof {
                lemma_instructions_space_take(instructions@, i as int);
            }
            total = total + instructions[i].space();
            i = i + 1;
            proof {
                assert(instructions@.take(i as int).drop_last() =~= instructions@.take(
                    i as int - 1,
                ));
            }
        }
        proof {
            assert(instructions@.take(instructions@.len() as int) =~= instructions@);
        }
        total
    }
}

/// Total space of a sequence of instructions.
pub open spec fn spec_instructions_space(ixs: Seq<ProposalInstruction>) -> int
    decreases ixs.len(),
{
    if ixs.len() == 0 {
        0
    } else {
        spec_instructions_space(ixs.drop_last()) + ixs.last().spec_space()
    }
}

/// The space of a prefix is bounded by the space of the whole sequence.
proof fn lemma_instructions_space_take(ixs: Seq<ProposalInstruction>, i: int)
    requires
        0 <= i < ixs.len(),
    ensures
        spec_instructions_space(ixs.take(i)) + ixs[i].spec_space() == spec_instructions_space(
            ixs.take(i + 1),
        ),
        spec_instructions_space(ixs.take(i + 1)) <= spec_instructions_space(ixs),
    decreases ixs.len(),
{
    assert(ixs.take(i + 1).drop_last() =~= ixs.take(i));
    assert(ixs.take(i + 1).last() == ixs[i]);
    if i + 1 < ixs.len() {
        assert(ixs.drop_last().take(i + 1) =~= ixs.take(i + 1));
        lemma_instructions_space_take(ixs.drop_last(), i);
        assert(spec_instructions_space(ixs.take(i + 1)) <= spec_instructions_space(
            ixs.drop_last(),
        ));
    } else {
        assert(ixs.take(i + 1) =~= ixs);
    }
}

/// Free-text metadata about a proposal; does not affect the lifecycle.
#[derive(Clone, Debug)]
pub struct ProposalMeta {
    /// Address of the proposal described.
    pub proposal: Pubkey,
    /// Title of the proposal.
    pub title: String,
    /// Link to a description of the proposal.
    pub description_link: String,
}

/// The side a vote takes.
#[derive(Clone, Copy, Debug, PartialEq, Eq, Structural)]
pub enum VoteSide {
    /// In opposition to the proposal.
    Against,
    /// In favor of the proposal.
    For,
    /// Abstaining.
    Abstain,
}

/// One voter's recorded side and weight for one proposal. At most one vote
/// exists per (proposal, voter) pair; its weight is always mirrored by
/// exactly one of the proposal's three tallies.
#[derive(Clone, Copy, Debug, PartialEq, Eq, Structural)]
pub struct Vote {
    /// Index of the proposal being voted on, under its governor.
    pub proposal_index: u64,
    /// Address of the voter.
    pub voter: Pubkey,
    /// Address-derivation salt.
    pub bump: u8,
    /// The side taken.
    pub side: VoteSide,
    /// The voter's weight at the time of casting; zero weight is a recorded
    /// abstention that contributes nothing to tallies.
    pub weight: u64,
}

/// One instruction of a proposal's batch: an opaque payload for a target
/// program, with the account references it needs. The core never interprets
/// the payload.
#[derive(Clone, Debug, PartialEq, Eq)]
pub struct ProposalInstruction {
    /// Address of the program that executes this instruction.
    pub program_id: Pubkey,
    /// Ordered account references passed to the program.
    pub keys: Vec<ProposalAccountMeta>,
    /// Opaque payload bytes.
    pub data: Vec<u8>,
}

impl ProposalInstruction {
    /// Serialized space of one instruction: a 32-byte program address, a
    /// 4-byte key count, 34 bytes per account reference, a 4-byte payload
    /// length, and the payload itself.
    pub open spec fn spec_space(self) -> int {
        32 + 4 + self.keys@.len() as int * 34 + 4 + self.data@.len() as int
    }

    /// Storage space in bytes that this instruction takes up.
    pub fn space(&self) -> (r: usize)
        requires
            self.spec_space() <= usize::MAX,
        ensures
            r == self.spec_space(),
    {
        proof {
            assert(self.keys@.len() * 34 >= 0) by (nonlinear_arith);
        }
        32 + 4 + self.keys.len() * 34 + 4 + self.data.len()
    }
}

/// One account reference of an instruction, with its capability flags.
#[derive(Clone, Copy, Debug, PartialEq, Eq, Structural)]
pub struct ProposalAccountMeta {
    /// The account's address.
    pub pubkey: Pubkey,
    /// True if the instruction requires a signature matching `pubkey`.
    pub is_signer: bool,
    /// True if the account may be written during execution.
    pub is_writable: bool,
}

} // verus!
