//! Space accounting of stored records against their serialized byte form.

use govern::keys::Pubkey;
use govern::state::{Proposal, ProposalAccountMeta, ProposalInstruction};

#[test]
fn test_proposal_instruction_space() {
    let proposal_ix = ProposalInstruction {
        program_id: Pubkey::default(),
        data: vec![0u8; 64],
        keys: vec![
            ProposalAccountMeta {
                is_signer: false,
                is_writable: false,
                pubkey: Pubkey::default(),
            };
            24
        ],
    };

    let serialized_bytes = proposal_ix.try_to_vec().len();
    let proposal_ix_rent_space = proposal_ix.space();

    assert_eq!(serialized_bytes, 920);
    // The serialized length and the rental space always agree, because every
    // field of an account reference is packed on the wire with no padding.
    assert_eq!(serialized_bytes, proposal_ix_rent_space);
}

#[test]
fn test_proposal_empty_ix_space() {
    let empty_proposal = Proposal::default();
    let mut serialized_bytes = empty_proposal.try_to_vec();
    serialized_bytes.append(&mut Proposal::discriminator());

    let bytes_length = serialized_bytes.len();
    let proposal_rental_space = Proposal::space(vec![]);

    // The rental space covers the in-memory footprint of the fixed fields,
    // where the salt byte is padded to 8-byte alignment (7 extra bytes) and
    // the instruction vector's header takes 24 bytes, so it exceeds the wire
    // form by 24 + 7 = 31 bytes.
    let extra_bytes = proposal_rental_space - bytes_length;
    assert_eq!(extra_bytes, 31);
    assert_eq!(bytes_length <= proposal_rental_space, true);
}

#[test]
fn test_proposal_multiple_ix_space() {
    let proposal_ixs = vec![ProposalInstruction {
        data: vec![0u8; 24],
        keys: vec![
            ProposalAccountMeta {
                is_signer: false,
                is_writable: false,
                pubkey: Pubkey::default(),
            };
            32
        ],
        program_id: Pubkey::default(),
    }];

    let mut proposal = Proposal::default();
    proposal.instructions = proposal_ixs.clone();

    let mut serialized_bytes = proposal.try_to_vec();
    serialized_bytes.append(&mut Proposal::discriminator());

    let bytes_length = serialized_bytes.len();
    let proposal_rental_space = Proposal::space(proposal_ixs);

    let extra_bytes = proposal_rental_space - bytes_length;
    assert_eq!(extra_bytes, 31);
    assert_eq!(bytes_length <= proposal_rental_space, true);
}
