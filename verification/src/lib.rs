//! Governance core of a DAO toolkit: a Governor / Proposal / Vote lifecycle
//! state machine. Proposal status is derived purely from stored timestamps and
//! vote tallies, voting is time-boxed and token-weighted, and a successful
//! proposal is handed to an external execution authority through a timelock.

pub mod codec;
pub mod dao;
pub mod error;
pub mod gauge;
pub mod keys;
pub mod minter;
pub mod state;
pub mod status;
