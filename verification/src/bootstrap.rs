//! The channel bootstrap orchestrator.
//!
//! Bootstrapping a channel is a fixed two-step protocol against two external
//! builders: the Connection Builder performs the connection handshake, then
//! the Channel Builder performs the channel handshake over the resulting
//! connection. Both builders submit transactions and wait on each chain, so
//! the caller performs those calls; every decision in between is made here.
//!
//! The protocol is encoded as two phase values. [`ConnectionPhase::begin`]
//! tags the two port identifiers with their chain roles and asks the caller
//! to run the Connection Builder over its client handles, with the
//! process-default delay period. [`ConnectionPhase::connection_built`] takes
//! that outcome: on failure it propagates the builder's report unchanged; on
//! success it produces a [`ChannelPhase`] together with the exact
//! [`ChannelRequest`] the Channel Builder is to be invoked with. Finally
//! [`ChannelPhase::channel_built`] takes the Channel Builder's outcome,
//! enforces that both sides carry an assigned channel identifier, and
//! assembles the tagged [`Channel`] record.
//!
//! A [`ChannelPhase`] is produced by `connection_built` on success and by
//! nothing else, so a caller holding one — or holding a `ChannelRequest` —
//! has necessarily seen the Connection Builder succeed first: the Channel
//! Builder cannot be reached out of order, and no step can be skipped.

use vstd::prelude::*;
use crate::channel::{BaseChannel, Channel, ChannelOrdering, ChannelRequest};
use crate::errors::{BootstrapError, Side};
use crate::identifiers::{ChannelId, PortId};
use crate::tagged::DualTagged;

verus! {

/// A bootstrap whose connection handshake is pending: the ports are tagged,
/// and the caller is to run the Connection Builder over its two foreign
/// client handles with the process-default delay period, then report the
/// outcome to [`ConnectionPhase::connection_built`].
pub struct ConnectionPhase<ChainA, ChainB> {
    port_a: DualTagged<ChainA, ChainB, PortId>,
    port_b: DualTagged<ChainB, ChainA, PortId>,
}

/// A bootstrap whose connection is established and whose channel handshake is
/// pending: the caller is to run the Channel Builder over that connection
/// with the accompanying [`ChannelRequest`], then report the outcome to
/// [`ChannelPhase::channel_built`].
///
/// Only [`ConnectionPhase::connection_built`], on a success outcome, produces
/// a value of this type.
pub struct ChannelPhase<ChainA, ChainB> {
    port_a: DualTagged<ChainA, ChainB, PortId>,
    port_b: DualTagged<ChainB, ChainA, PortId>,
}

impl<ChainA, ChainB> ConnectionPhase<ChainA, ChainB> {
    /// The port for chain A, tagged with A's perspective.
    pub closed spec fn spec_port_a(self) -> DualTagged<ChainA, ChainB, PortId> {
        self.port_a
    }

    /// The port for chain B, tagged with B's perspective.
    pub closed spec fn spec_port_b(self) -> DualTagged<ChainB, ChainA, PortId> {
        self.port_b
    }

    /// Begin a bootstrap: wrap the two port identifiers as values scoped to
    /// their chain roles. `port_a` was configured for chain A and `port_b`
    /// for chain B, so this is a true scope boundary for both.
    pub fn begin(port_a: PortId, port_b: PortId) -> (r: ConnectionPhase<ChainA, ChainB>)
        ensures
            r.spec_port_a().value == port_a,
            r.spec_port_b().value == port_b,
    {
        ConnectionPhase { port_a: DualTagged::new(port_a), port_b: DualTagged::new(port_b) }
    }

    /// Take the Connection Builder's outcome.
    ///
    /// A failure is propagated unchanged, carrying the builder's report
    /// verbatim; nothing is retried here, and no channel phase results. On
    /// success the bootstrap moves to its channel phase, and the Channel
    /// Builder is to be invoked exactly as the returned request says: over
    /// the established connection, with unordered delivery, the two port
    /// identifiers unwrapped from their tags, and no version override.
    pub fn connection_built(self, outcome: Result<(), String>) -> (r: Result<
        (ChannelPhase<ChainA, ChainB>, ChannelRequest),
        BootstrapError,
    >)
        ensures
            match outcome {
                Ok(()) => r matches Ok((phase, request)) && {
                    &&& phase.spec_port_a() == self.spec_port_a()
                    &&& phase.spec_port_b() == self.spec_port_b()
                    &&& request == (ChannelRequest {
                        ordering: ChannelOrdering::Unordered,
                        port_a: self.spec_port_a().value,
                        port_b: self.spec_port_b().value,
                        version: None,
                    })
                },
                Err(report) => r == Err::<
                    (ChannelPhase<ChainA, ChainB>, ChannelRequest),
                    BootstrapError,
                >(BootstrapError::ConnectionBuildFailure(report)),
            },
    {
        match outcome {
            Ok(()) => {
                let request = ChannelRequest {
                    ordering: ChannelOrdering::Unordered,
                    port_a: self.port_a.value.clone(),
                    port_b: self.port_b.value.clone(),
                    version: None,
                };
                let phase = ChannelPhase { port_a: self.port_a, port_b: self.port_b };
                Ok((phase, request))
            },
            Err(report) => Err(BootstrapError::ConnectionBuildFailure(report)),
        }
    }
}

impl<ChainA, ChainB> ChannelPhase<ChainA, ChainB> {
    /// The port for chain A, tagged with A's perspective.
    pub closed spec fn spec_port_a(self) -> DualTagged<ChainA, ChainB, PortId> {
        self.port_a
    }

    /// The port for chain B, tagged with B's perspective.
    pub closed spec fn spec_port_b(self) -> DualTagged<ChainB, ChainA, PortId> {
        self.port_b
    }

    /// Take the Channel Builder's outcome and finish the bootstrap.
    ///
    /// A failure is propagated unchanged, carrying the builder's report
    /// verbatim. On success, both sides of the reported channel must carry an
    /// assigned channel identifier: side A is checked first, and a missing
    /// identifier is a hard failure naming that side — a successfully
    /// completed builder always assigns both, so absence is a breach of its
    /// contract, not a retryable condition. With both present, the two
    /// identifiers are tagged with their chain roles, the ports are re-tagged
    /// from this phase's own tagged values, and the record is assembled.
    pub fn channel_built(self, outcome: Result<BaseChannel, String>) -> (r: Result<
        Channel<ChainA, ChainB>,
        BootstrapError,
    >)
        ensures
            match outcome {
                Ok(built) => match (built.a_side.channel_id, built.b_side.channel_id) {
                    (Option::Some(id_a), Option::Some(id_b)) => r matches Ok(record) && {
                        &&& record.channel == built
                        &&& record.channel_id_a.value == id_a
                        &&& record.channel_id_b.value == id_b
                        &&& record.channel_id_a.value@.len() > 0
                        &&& record.channel_id_b.value@.len() > 0
                        &&& record.port_a.value == self.spec_port_a().value
                        &&& record.port_b.value == self.spec_port_b().value
                    },
                    (Option::None, _) => r == Err::<Channel<ChainA, ChainB>, BootstrapError>(
                        BootstrapError::MissingChannelId(Side::A),
                    ),
                    (Option::Some(_), Option::None) => r == Err::<
                        Channel<ChainA, ChainB>,
                        BootstrapError,
                    >(BootstrapError::MissingChannelId(Side::B)),
                },
                Err(report) => r == Err::<Channel<ChainA, ChainB>, BootstrapError>(
                    BootstrapError::ChannelBuildFailure(report),
                ),
            },
    {
        let built = match outcome {
            Ok(built) => built,
            Err(report) => {
                return Err(BootstrapError::ChannelBuildFailure(report));
            },
        };
        let channel_id_a = match &built.a_side.channel_id {
            Some(id) => id.clone(),
            None => {
                return Err(BootstrapError::MissingChannelId(Side::A));
            },
        };
        let channel_id_b = match &built.b_side.channel_id {
            Some(id) => id.clone(),
            None => {
                return Err(BootstrapError::MissingChannelId(Side::B));
            },
        };
        proof {
            use_type_invariant(&channel_id_a);
            use_type_invariant(&channel_id_b);
            ChannelId::lemma_non_empty(channel_id_a);
            ChannelId::lemma_non_empty(channel_id_b);
        }
        let record = Channel {
            channel: built,
            channel_id_a: DualTagged::new(channel_id_a),
            channel_id_b: DualTagged::new(channel_id_b),
            port_a: self.port_a.cloned(),
            port_b: self.port_b.cloned(),
        };
        Ok(record)
    }
}

/// Law: the Channel Builder is reached only after the Connection Builder has
/// succeeded.
///
/// The channel phase and the request to the Channel Builder exist only as the
/// success result of [`ConnectionPhase::connection_built`], and this lemma
/// states that any such success presupposes a success outcome of the
/// Connection Builder: on a failure outcome, `connection_built` never yields
/// them. Together with the privacy of [`ChannelPhase`]'s fields — no other
/// item of this crate constructs one — a caller cannot invoke the Channel
/// Builder for a bootstrap whose connection was not built first.
pub proof fn lemma_channel_phase_only_after_connection<ChainA, ChainB>(
    phase: ConnectionPhase<ChainA, ChainB>,
    outcome: Result<(), String>,
    r: Result<(ChannelPhase<ChainA, ChainB>, ChannelRequest), BootstrapError>,
)
    requires
        call_ensures(ConnectionPhase::<ChainA, ChainB>::connection_built, (phase, outcome), r),
        r is Ok,
    ensures
        outcome is Ok,
{
}

/// Law: a failure of the Connection Builder is propagated unchanged.
///
/// When the Connection Builder reports failure, the bootstrap fails with a
/// connection-build error carrying that report verbatim — and with nothing
/// else: no channel phase and no request to the Channel Builder result, so
/// the Channel Builder is never invoked for this bootstrap.
pub proof fn lemma_connection_failure_propagates<ChainA, ChainB>(
    phase: ConnectionPhase<ChainA, ChainB>,
    report: String,
    r: Result<(ChannelPhase<ChainA, ChainB>, ChannelRequest), BootstrapError>,
)
    requires
        call_ensures(
            ConnectionPhase::<ChainA, ChainB>::connection_built,
            (phase, Err::<(), String>(report)),
            r,
        ),
    ensures
        r == Err::<(ChannelPhase<ChainA, ChainB>, ChannelRequest), BootstrapError>(
            BootstrapError::ConnectionBuildFailure(report),
        ),
{
}

/// Law: a failure of the Channel Builder is propagated unchanged.
///
/// When the Channel Builder reports failure, the bootstrap fails with a
/// channel-build error carrying that report verbatim, and no record results.
pub proof fn lemma_channel_failure_propagates<ChainA, ChainB>(
    phase: ChannelPhase<ChainA, ChainB>,
    report: String,
    r: Result<Channel<ChainA, ChainB>, BootstrapError>,
)
    requires
        call_ensures(
            ChannelPhase::<ChainA, ChainB>::channel_built,
            (phase, Err::<BaseChannel, String>(report)),
            r,
        ),
    ensures
        r == Err::<Channel<ChainA, ChainB>, BootstrapError>(
            BootstrapError::ChannelBuildFailure(report),
        ),
{
}

/// Law: a successful bootstrap carries both channel identifiers, non-empty.
///
/// Whatever the Channel Builder's outcome, if [`ChannelPhase::channel_built`]
/// returns a record, that record's tagged identifiers are the ones the
/// builder assigned to side A and side B respectively, and neither is empty.
pub proof fn lemma_success_has_both_channel_ids<ChainA, ChainB>(
    phase: ChannelPhase<ChainA, ChainB>,
    outcome: Result<BaseChannel, String>,
    record: Channel<ChainA, ChainB>,
)
    requires
        call_ensures(
            ChannelPhase::<ChainA, ChainB>::channel_built,
            (phase, outcome),
            Ok::<Channel<ChainA, ChainB>, BootstrapError>(record),
        ),
    ensures
        outcome matches Ok(built) && built.a_side.channel_id == Some(record.channel_id_a.value)
            && built.b_side.channel_id == Some(record.channel_id_b.value),
        record.channel_id_a.value@.len() > 0,
        record.channel_id_b.value@.len() > 0,
{
}

} // verus!
