//! Byte layout of stored records: little-endian integers, one byte per flag
//! or salt, and 4-byte length-prefixed vectors. This is the wire form a
//! record occupies on the ledger, against which the space accounting in
//! [`crate::state`] is checked.

use vstd::prelude::*;

use crate::keys::Pubkey;
use crate::state::{
    spec_instructions_space, Proposal, ProposalAccountMeta, ProposalInstruction,
    PROPOSAL_FIXED_SPACE,
};

verus! {

/// The eight little-endian bytes of `v`.
pub open spec fn ser_u64(v: u64) -> Seq<u8> {
    seq![
        (v & 0xff) as u8,
        ((v >> 8u64) & 0xff) as u8,
        ((v >> 16u64) & 0xff) as u8,
        ((v >> 24u64) & 0xff) as u8,
        ((v >> 32u64) & 0xff) as u8,
        ((v >> 40u64) & 0xff) as u8,
        ((v >> 48u64) & 0xff) as u8,
        ((v >> 56u64) & 0xff) as u8,
    ]
}

/// The four little-endian bytes of `v`.
pub open spec fn ser_u32(v: u32) -> Seq<u8> {
    seq![
        (v & 0xff) as u8,
        ((v >> 8u32) & 0xff) as u8,
        ((v >> 16u32) & 0xff) as u8,
        ((v >> 24u32) & 0xff) as u8,
    ]
}

/// A signed timestamp serializes as its two's-complement bit pattern.
pub open spec fn ser_i64(v: i64) -> Seq<u8> {
    ser_u64(v as u64)
}

/// One byte.
pub open spec fn ser_u8(v: u8) -> Seq<u8> {
    seq![v]
}

/// A flag is one byte, one for true.
pub open spec fn ser_bool(b: bool) -> Seq<u8> {
    seq![if b { 1u8 } else { 0u8 }]
}

/// An address is its four words in order, 32 bytes.
pub open spec fn ser_pubkey(k: Pubkey) -> Seq<u8> {
    ser_u64(k.w0) + ser_u64(k.w1) + ser_u64(k.w2) + ser_u64(k.w3)
}

/// An account reference is its address and its two flags, 34 bytes.
pub open spec fn ser_meta(m: ProposalAccountMeta) -> Seq<u8> {
    ser_pubkey(m.pubkey) + ser_bool(m.is_signer) + ser_bool(m.is_writable)
}

/// Account references in order.
pub open spec fn ser_metas(s: Seq<ProposalAccountMeta>) -> Seq<u8>
    decreases s.len(),
{
    if s.len() == 0 {
        Seq::empty()
    } else {
        ser_metas(s.drop_last()) + ser_meta(s.last())
    }
}

/// An instruction: its program address, its length-prefixed account
/// references, and its length-prefixed payload.
pub open spec fn ser_instruction(ix: ProposalInstruction) -> Seq<u8> {
    ser_pubkey(ix.program_id) + ser_u32(ix.keys@.len() as u32) + ser_metas(ix.keys@) + ser_u32(
        ix.data@.len() as u32,
    ) + ix.data@
}

/// Instructions in order.
pub open spec fn ser_instructions(s: Seq<ProposalInstruction>) -> Seq<u8>
    decreases s.len(),
{
    if s.len() == 0 {
        Seq::empty()
    } else {
        ser_instructions(s.drop_last()) + ser_instruction(s.last())
    }
}

/// A proposal's fixed fields in declaration order.
pub open spec fn ser_proposal_head(p: Proposal) -> Seq<u8> {
    ser_pubkey(p.governor) + ser_u64(p.index) + ser_u8(p.bump) + ser_pubkey(p.proposer) + ser_u64(
        p.quorum_votes,
    ) + ser_u64(p.for_votes) + ser_u64(p.against_votes) + ser_u64(p.abstain_votes) + ser_i64(
        p.canceled_at,
    ) + ser_i64(p.created_at) + ser_i64(p.activated_at) + ser_i64(p.voting_ends_at) + ser_i64(
        p.queued_at,
    ) + ser_i64(p.executed_at) + ser_pubkey(p.queued_transaction)
}

/// A whole proposal: the fixed fields, then the length-prefixed
/// instruction batch.
pub open spec fn ser_proposal(p: Proposal) -> Seq<u8> {
    ser_proposal_head(p) + ser_u32(p.instructions@.len() as u32) + ser_instructions(
        p.instructions@,
    )
}

/// Whether an instruction's vector lengths fit their 4-byte prefixes.
pub open spec fn instruction_fits(ix: ProposalInstruction) -> bool {
    ix.keys@.len() <= u32::MAX && ix.data@.len() <= u32::MAX
}

/// Whether a proposal's vector lengths fit their 4-byte prefixes.
pub open spec fn proposal_fits(p: Proposal) -> bool {
    &&& p.instructions@.len() <= u32::MAX
    &&& forall|i: int|
        0 <= i < p.instructions@.len() ==> instruction_fits(#[trigger] p.instructions@[i])
}

/// The eight-byte record tag that prefixes a stored proposal.
pub open spec fn proposal_discriminator() -> Seq<u8> {
    seq![112u8, 114u8, 111u8, 112u8, 111u8, 115u8, 97u8, 108u8]
}

/// Account references serialize to 34 bytes each.
proof fn lemma_ser_metas_len(s: Seq<ProposalAccountMeta>)
    ensures
        ser_metas(s).len() == 34 * s.len(),
    decreases s.len(),
{
    if s.len() > 0 {
        lemma_ser_metas_len(s.drop_last());
    }
}

/// An instruction's wire length is exactly the space it rents: every field
/// of an instruction is packed on the wire with no padding.
pub proof fn lemma_instruction_space_is_wire_length(ix: ProposalInstruction)
    ensures
        ser_instruction(ix).len() == ix.spec_space(),
{
    lemma_ser_metas_len(ix.keys@);
}

/// The wire length of an instruction batch is the sum of the instructions'
/// spaces.
proof fn lemma_ser_instructions_len(s: Seq<ProposalInstruction>)
    ensures
        ser_instructions(s).len() == spec_instructions_space(s),
    decreases s.len(),
{
    if s.len() > 0 {
        lemma_ser_instructions_len(s.drop_last());
        lemma_instruction_space_is_wire_length(s.last());
    }
}

/// The space a proposal rents always exceeds its tagged wire form by
/// exactly 31 bytes: 7 bytes of alignment padding for the salt byte and the
/// 24-byte in-memory header of the instruction vector.
pub proof fn lemma_proposal_space_exceeds_wire_form(p: Proposal)
    ensures
        8 + 4 + PROPOSAL_FIXED_SPACE + spec_instructions_space(p.instructions@) == ser_proposal(
            p,
        ).len() + proposal_discriminator().len() + 31,
{
    lemma_ser_instructions_len(p.instructions@);
}

fn push_u64(buf: &mut Vec<u8>, v: u64)
    ensures
        final(buf)@ == old(buf)@ + ser_u64(v),
{
    buf.push((v & 0xff) as u8);
    buf.push(((v >> 8u64) & 0xff) as u8);
    buf.push(((v >> 16u64) & 0xff) as u8);
    buf.push(((v >> 24u64) & 0xff) as u8);
    buf.push(((v >> 32u64) & 0xff) as u8);
    buf.push(((v >> 40u64) & 0xff) as u8);
    buf.push(((v >> 48u64) & 0xff) as u8);
    buf.push(((v >> 56u64) & 0xff) as u8);
    proof {
        assert(buf@ =~= old(buf)@ + ser_u64(v));
    }
}

fn push_u32(buf: &mut Vec<u8>, v: u32)
    ensures
        final(buf)@ == old(buf)@ + ser_u32(v),
{
    buf.push((v & 0xff) as u8);
    buf.push(((v >> 8u32) & 0xff) as u8);
    buf.push(((v >> 16u32) & 0xff) as u8);
    buf.push(((v >> 24u32) & 0xff) as u8);
    proof {
        assert(buf@ =~= old(buf)@ + ser_u32(v));
    }
}

fn push_i64(buf: &mut Vec<u8>, v: i64)
    ensures
        final(buf)@ == old(buf)@ + ser_i64(v),
{
    push_u64(buf, v as u64);
}

fn push_u8(buf: &mut Vec<u8>, v: u8)
    ensures
        final(buf)@ == old(buf)@ + ser_u8(v),
{
    buf.push(v);
    proof {
        assert(buf@ =~= old(buf)@ + ser_u8(v));
    }
}

fn push_bool(buf: &mut Vec<u8>, b: bool)
    ensures
        final(buf)@ == old(buf)@ + ser_bool(b),
{
    buf.push(if b { 1 } else { 0 });
    proof {
        assert(buf@ =~= old(buf)@ + ser_bool(b));
    }
}

fn push_pubkey(buf: &mut Vec<u8>, k: &Pubkey)
    ensures
        final(buf)@ == old(buf)@ + ser_pubkey(*k),
{
    push_u64(buf, k.w0);
    push_u64(buf, k.w1);
    push_u64(buf, k.w2);
    push_u64(buf, k.w3);
    proof {
        assert(buf@ =~= old(buf)@ + ser_pubkey(*k));
    }
}

fn push_meta(buf: &mut Vec<u8>, m: &ProposalAccountMeta)
    ensures
        final(buf)@ == old(buf)@ + ser_meta(*m),
{
    push_pubkey(buf, &m.pubkey);
    push_bool(buf, m.is_signer);
    push_bool(buf, m.is_writable);
    proof {
        assert(buf@ =~= old(buf)@ + ser_meta(*m));
    }
}

fn push_bytes(buf: &mut Vec<u8>, data: &Vec<u8>)
    ensures
        final(buf)@ == old(buf)@ + data@,
{
    let mut k: usize = 0;
    while k < data.len()
        invariant
            k <= data@.len(),
            buf@ == old(buf)@ + data@.take(k as int),
        decreases data@.len() - k,
    {
        buf.push(data[k]);
        proof {
            assert(old(buf)@ + data@.take(k as int + 1) =~= (old(buf)@ + data@.take(
                k as int,
            )).push(data@[k as int]));
        }
        k = k + 1;
    }
    proof {
        assert(data@.take(data@.len() as int) =~= data@);
    }
}

fn push_instruction(buf: &mut Vec<u8>, ix: &ProposalInstruction)
    requires
        instruction_fits(*ix),
    ensures
        final(buf)@ == old(buf)@ + ser_instruction(*ix),
{
    push_pubkey(buf, &ix.program_id);
    push_u32(buf, ix.keys.len() as u32);
    let mut k: usize = 0;
    while k < ix.keys.len()
        invariant
            k <= ix.keys@.len(),
            buf@ == old(buf)@ + ser_pubkey(ix.program_id) + ser_u32(ix.keys@.len() as u32)
                + ser_metas(ix.keys@.take(k as int)),
        decreases ix.keys@.len() - k,
    {
        let m = ix.keys[k];
        push_meta(buf, &m);
        proof {
            assert(ix.keys@.take(k as int + 1).drop_last() =~= ix.keys@.take(k as int));
            assert(ix.keys@.take(k as int + 1).last() == ix.keys@[k as int]);
            assert(buf@ =~= old(buf)@ + ser_pubkey(ix.program_id) + ser_u32(
                ix.keys@.len() as u32,
            ) + ser_metas(ix.keys@.take(k as int + 1)));
        }
        k = k + 1;
    }
    proof {
        assert(ix.keys@.take(ix.keys@.len() as int) =~= ix.keys@);
    }
    push_u32(buf, ix.data.len() as u32);
    push_bytes(buf, &ix.data);
    proof {
        assert(buf@ =~= old(buf)@ + ser_instruction(*ix));
    }
}

impl ProposalInstruction {
    /// Serializes this instruction into its ledger byte form.
    pub fn try_to_vec(&self) -> (r: Vec<u8>)
        requires
            instruction_fits(*self),
        ensures
            r@ == ser_instruction(*self),
    {
        let mut buf: Vec<u8> = Vec::new();
        push_instruction(&mut buf, self);
        proof {
            assert(buf@ =~= ser_instruction(*self));
        }
        buf
    }
}

impl Proposal {
    /// Serializes this proposal into its ledger byte form.
    pub fn try_to_vec(&self) -> (r: Vec<u8>)
        requires
            proposal_fits(*self),
        ensures
            r@ == ser_proposal(*self),
    {
        let mut buf: Vec<u8> = Vec::new();
        push_pubkey(&mut buf, &self.governor);
        push_u64(&mut buf, self.index);
        push_u8(&mut buf, self.bump);
        push_pubkey(&mut buf, &self.proposer);
        push_u64(&mut buf, self.quorum_votes);
        push_u64(&mut buf, self.for_votes);
        push_u64(&mut buf, self.against_votes);
        push_u64(&mut buf, self.abstain_votes);
        push_i64(&mut buf, self.canceled_at);
        push_i64(&mut buf, self.created_at);
        push_i64(&mut buf, self.activated_at);
        push_i64(&mut buf, self.voting_ends_at);
        push_i64(&mut buf, self.queued_at);
        push_i64(&mut buf, self.executed_at);
        push_pubkey(&mut buf, &self.queued_transaction);
        proof {
            assert(buf@ =~= ser_proposal_head(*self));
        }
        push_u32(&mut buf, self.instructions.len() as u32);
        let mut k: usize = 0;
        while k < self.instructions.len()
            invariant
                proposal_fits(*self),
                k <= self.instructions@.len(),
                buf@ == ser_proposal_head(*self) + ser_u32(self.instructions@.len() as u32)
                    + ser_instructions(self.instructions@.take(k as int)),
            decreases self.instructions@.len() - k,
        {
            push_instruction(&mut buf, &self.instructions[k]);
            proof {
                assert(self.instructions@.take(k as int + 1).drop_last() =~= self.instructions@.take(
                    k as int,
                ));
                assert(self.instructions@.take(k as int + 1).last() == self.instructions@[
                    k as int
                ]);
                assert(buf@ =~= ser_proposal_head(*self) + ser_u32(self.instructions@.len() as u32)
                    + ser_instructions(self.instructions@.take(k as int + 1)));
            }
            k = k + 1;
        }
        proof {
            assert(self.instructions@.take(self.instructions@.len() as int)
                =~= self.instructions@);
        }
        buf
    }

    /// The eight-byte record tag that prefixes a stored proposal.
    pub fn discriminator() -> (r: Vec<u8>)
        ensures
            r@ == proposal_discriminator(),
    {
        let mut buf: Vec<u8> = Vec::new();
        buf.push(112);
        buf.push(114);
        buf.push(111);
        buf.push(112);
        buf.push(111);
        buf.push(115);
        buf.push(97);
        buf.push(108);
        proof {
            assert(buf@ =~= proposal_discriminator());
        }
        buf
    }
}

} // verus!
