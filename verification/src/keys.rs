//! Account identities. An address on the ledger is an opaque 32-byte value;
//! the core only ever compares addresses for exact equality, so it models one
//! as four 64-bit words.

use vstd::prelude::*;

verus! {

/// A 32-byte ledger address, stored as four little-endian 64-bit words.
/// Authorization in this core is exact-identity equality on these values.
#[derive(Clone, Copy, Debug, PartialEq, Eq, Structural)]
pub struct Pubkey {
    /// Words of the address, least significant first.
    pub w0: u64,
    /// Second word.
    pub w1: u64,
    /// Third word.
    pub w2: u64,
    /// Fourth word.
    pub w3: u64,
}

impl Pubkey {
    /// The all-zero address, used for unset references.
    pub fn zero() -> (r: Pubkey)
        ensures
            r == (Pubkey { w0: 0, w1: 0, w2: 0, w3: 0 }),
    {
        Pubkey { w0: 0, w1: 0, w2: 0, w3: 0 }
    }

    /// Builds an address from its four words.
    pub fn new(w0: u64, w1: u64, w2: u64, w3: u64) -> (r: Pubkey)
        ensures
            r == (Pubkey { w0, w1, w2, w3 }),
    {
        Pubkey { w0, w1, w2, w3 }
    }
}

impl Default for Pubkey {
    /// The default address is the all-zero address.
    fn default() -> (r: Pubkey)
        ensures
            r == (Pubkey { w0: 0, w1: 0, w2: 0, w3: 0 }),
    {
        Pubkey { w0: 0, w1: 0, w2: 0, w3: 0 }
    }
}

} // verus!
