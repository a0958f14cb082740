//! Gauge-voter registration adjacent to the governance core: opens a
//! per-escrow voting record under a gauge factory, after checking that the
//! escrow belongs to the factory's voting-power source.

use vstd::prelude::*;

use crate::error::GovernError;
use crate::keys::Pubkey;

verus! {

/// The root record of the gauge subsystem: which voting-power source its
/// escrows must belong to, and which rewarder funds it.
#[derive(Clone, Copy, Debug, PartialEq, Eq, Structural)]
pub struct GaugeFactory {
    /// The voting-power source whose escrows may vote on gauges.
    pub locker: Pubkey,
    /// The rewarder distributing emissions across the factory's gauges.
    pub rewarder: Pubkey,
}

/// What this core reads of an escrow record of the voting-power source: the
/// locker it belongs to and its owner.
#[derive(Clone, Copy, Debug, PartialEq, Eq, Structural)]
pub struct Escrow {
    /// The voting-power source this escrow belongs to.
    pub locker: Pubkey,
    /// The principal owning the escrowed power.
    pub owner: Pubkey,
}

/// One escrow's voting record under a gauge factory.
#[derive(Clone, Copy, Debug, PartialEq, Eq, Structural)]
pub struct GaugeVoter {
    /// Address of the owning gauge factory.
    pub gauge_factory: Pubkey,
    /// Address of the escrow whose power this record spends.
    pub escrow: Pubkey,
    /// The escrow's owner, the principal that casts gauge votes.
    pub owner: Pubkey,
    /// Total weight currently allocated across gauges; starts at zero.
    pub total_weight: u64,
    /// Sequence number bumped on each weight change; starts at zero.
    pub weight_change_seqno: u64,
}

/// Inputs for creating a gauge voter.
#[derive(Clone, Copy, Debug, PartialEq, Eq, Structural)]
pub struct CreateGaugeVoter {
    /// Address of the gauge factory.
    pub gauge_factory_key: Pubkey,
    /// The gauge factory record.
    pub gauge_factory: GaugeFactory,
    /// Address of the escrow.
    pub escrow_key: Pubkey,
    /// The escrow record.
    pub escrow: Escrow,
}

impl CreateGaugeVoter {
    /// Checks that the escrow belongs to the same voting-power source as
    /// the gauge factory.
    pub fn validate(&self) -> (r: Result<(), GovernError>)
        ensures
            r == (if self.escrow.locker == self.gauge_factory.locker {
                Ok::<(), GovernError>(())
            } else {
                Err::<(), GovernError>(GovernError::StaleReference)
            }),
    {
        if self.escrow.locker == self.gauge_factory.locker {
            Ok(())
        } else {
            Err(GovernError::StaleReference)
        }
    }
}

/// Reported when a gauge voter is created.
#[derive(Clone, Copy, Debug, PartialEq, Eq, Structural)]
pub struct GaugeVoterCreateEvent {
    /// The gauge factory.
    pub gauge_factory: Pubkey,
    /// The rewarder of the gauge factory.
    pub rewarder: Pubkey,
    /// Owner of the escrow of the new gauge voter.
    pub gauge_voter_owner: Pubkey,
}

/// Creates a gauge voter for an escrow: a fresh record owned by the
/// escrow's owner with no weight allocated. Fails with `StaleReference`,
/// creating nothing, if and only if the escrow's voting-power source is not
/// the gauge factory's.
pub fn handler(ctx: &CreateGaugeVoter) -> (r: Result<
    (GaugeVoter, GaugeVoterCreateEvent),
    GovernError,
>)
    ensures
        r == (if ctx.escrow.locker != ctx.gauge_factory.locker {
            Err::<(GaugeVoter, GaugeVoterCreateEvent), GovernError>(GovernError::StaleReference)
        } else {
            Ok::<(GaugeVoter, GaugeVoterCreateEvent), GovernError>(
                (
                    GaugeVoter {
                        gauge_factory: ctx.gauge_factory_key,
                        escrow: ctx.escrow_key,
                        owner: ctx.escrow.owner,
                        total_weight: 0,
                        weight_change_seqno: 0,
                    },
                    GaugeVoterCreateEvent {
                        gauge_factory: ctx.gauge_factory_key,
                        rewarder: ctx.gauge_factory.rewarder,
                        gauge_voter_owner: ctx.escrow.owner,
                    },
                ),
            )
        }),
{
    match ctx.validate() {
        Err(e) => {
            return Err(e);
        },
        Ok(()) => {},
    }
    let gauge_voter = GaugeVoter {
        gauge_factory: ctx.gauge_factory_key,
        escrow: ctx.escrow_key,
        owner: ctx.escrow.owner,
        total_weight: 0,
        weight_change_seqno: 0,
    };
    let event = GaugeVoterCreateEvent {
        gauge_factory: gauge_voter.gauge_factory,
        rewarder: ctx.gauge_factory.rewarder,
        gauge_voter_owner: gauge_voter.owner,
    };
    Ok((gauge_voter, event))
}

} // verus!
