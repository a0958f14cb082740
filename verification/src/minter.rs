//! Minter administration adjacent to the governance core: an admin-gated
//! registry of principals allowed to mint, each minter record taking the
//! next index from its mint wrapper's counter.

use vstd::prelude::*;

use crate::error::GovernError;
use crate::keys::Pubkey;

verus! {

/// The root record of the mint: its admin and the number of minters ever
/// authorized under it.
#[derive(Clone, Copy, Debug, PartialEq, Eq, Structural)]
pub struct MintWrapper {
    /// The only principal allowed to authorize minters.
    pub admin: Pubkey,
    /// The number of minters ever authorized; the next minter's index.
    pub num_minters: u64,
}

/// One authorized minter under a mint wrapper.
#[derive(Clone, Copy, Debug, PartialEq, Eq, Structural)]
pub struct Minter {
    /// Address of the owning mint wrapper.
    pub mint_wrapper: Pubkey,
    /// The principal authorized to mint.
    pub minter_authority: Pubkey,
    /// Address-derivation salt.
    pub bump: u8,
    /// Unique index under the mint wrapper, assigned at creation.
    pub index: u64,
    /// Remaining amount this minter may mint; starts at zero.
    pub allowance: u64,
    /// Total amount this minter has minted; starts at zero.
    pub total_minted: u64,
}

/// Inputs for authorizing a new minter.
#[derive(Clone, Copy, Debug, PartialEq, Eq, Structural)]
pub struct NewMinter {
    /// The caller claiming to be the mint wrapper's admin.
    pub admin: Pubkey,
    /// Address of the mint wrapper.
    pub mint_wrapper_key: Pubkey,
    /// The mint wrapper record.
    pub mint_wrapper: MintWrapper,
    /// The principal to authorize as a minter.
    pub minter_authority: Pubkey,
    /// Address of the new minter record.
    pub minter_key: Pubkey,
    /// Address-derivation salt of the new minter record.
    pub bump: u8,
}

impl NewMinter {
    /// Checks that the caller is exactly the mint wrapper's admin.
    pub fn validate(&self) -> (r: Result<(), GovernError>)
        ensures
            r == (if self.admin == self.mint_wrapper.admin {
                Ok::<(), GovernError>(())
            } else {
                Err::<(), GovernError>(GovernError::Unauthorized)
            }),
    {
        if self.admin == self.mint_wrapper.admin {
            Ok(())
        } else {
            Err(GovernError::Unauthorized)
        }
    }
}

/// Reported when a minter is authorized.
#[derive(Clone, Copy, Debug, PartialEq, Eq, Structural)]
pub struct NewMinterEvent {
    /// The mint wrapper.
    pub mint_wrapper: Pubkey,
    /// Address of the new minter record.
    pub minter: Pubkey,
    /// The new minter's index.
    pub index: u64,
    /// The authorized minting principal.
    pub minter_authority: Pubkey,
}

/// Authorizes a new minter: takes the next index from the wrapper's
/// counter, and creates a minter record for `minter_authority` with zero
/// allowance and nothing minted. In check order this fails with
/// `Unauthorized` unless the caller is the wrapper's admin, and `Overflow`
/// if the counter would wrap; any failure leaves the wrapper unchanged.
pub fn handler(ctx: &mut NewMinter) -> (r: Result<(Minter, NewMinterEvent), GovernError>)
    ensures
        r == (if old(ctx).admin != old(ctx).mint_wrapper.admin {
            Err::<(Minter, NewMinterEvent), GovernError>(GovernError::Unauthorized)
        } else if old(ctx).mint_wrapper.num_minters == u64::MAX {
            Err::<(Minter, NewMinterEvent), GovernError>(GovernError::Overflow)
        } else {
            Ok::<(Minter, NewMinterEvent), GovernError>(
                (
                    Minter {
                        mint_wrapper: old(ctx).mint_wrapper_key,
                        minter_authority: old(ctx).minter_authority,
                        bump: old(ctx).bump,
                        index: old(ctx).mint_wrapper.num_minters,
                        allowance: 0,
                        total_minted: 0,
                    },
                    NewMinterEvent {
                        mint_wrapper: old(ctx).mint_wrapper_key,
                        minter: old(ctx).minter_key,
                        index: old(ctx).mint_wrapper.num_minters,
                        minter_authority: old(ctx).minter_authority,
                    },
                ),
            )
        }),
        r is Err ==> *final(ctx) == *old(ctx),
        r is Ok ==> *final(ctx) == (NewMinter {
            mint_wrapper: MintWrapper {
                admin: old(ctx).mint_wrapper.admin,
                num_minters: (old(ctx).mint_wrapper.num_minters + 1) as u64,
            },
            ..*old(ctx)
        }),
{
    match ctx.validate() {
        Err(e) => {
            return Err(e);
        },
        Ok(()) => {},
    }
    let index = ctx.mint_wrapper.num_minters;
    let next = match index.checked_add(1) {
        None => {
            return Err(GovernError::Overflow);
        },
        Some(n) => n,
    };
    ctx.mint_wrapper.num_minters = next;
    let minter = Minter {
        mint_wrapper: ctx.mint_wrapper_key,
        minter_authority: ctx.minter_authority,
        bump: ctx.bump,
        index,
        allowance: 0,
        total_minted: 0,
    };
    let event = NewMinterEvent {
        mint_wrapper: ctx.mint_wrapper_key,
        minter: ctx.minter_key,
        index,
        minter_authority: ctx.minter_authority,
    };
    Ok((minter, event))
}

} // verus!
