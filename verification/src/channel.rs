//! The channel values handled by the bootstrap.
//!
//! [`ChannelSide`] and [`BaseChannel`] model what this layer reads of the
//! Channel Builder's result: per side, the optionally assigned channel
//! identifier. [`ChannelRequest`] is what this layer hands the Channel
//! Builder; [`Channel`] is the bootstrapped record handed to the caller,
//! with every identifier tagged by its chain role.

use vstd::prelude::*;
use crate::identifiers::{ChannelId, PortId};
use crate::tagged::DualTagged;

verus! {

/// The delivery semantics a channel is built with.
#[derive(Debug, Clone, Copy, PartialEq, Eq, Structural)]
pub enum ChannelOrdering {
    /// Packets are delivered in the order they were sent.
    Ordered,
    /// Packets may be delivered in any order.
    Unordered,
}

/// One side of a channel as the Channel Builder reports it: the channel
/// identifier that chain has assigned, if the handshake reached the state
/// where identifiers are allocated.
pub struct ChannelSide {
    /// The identifier assigned by this side's chain, if any.
    pub channel_id: Option<ChannelId>,
}

/// A channel as the Channel Builder reports it: two sides, each optionally
/// carrying an assigned identifier.
pub struct BaseChannel {
    /// The side scoped to the first chain of the pair.
    pub a_side: ChannelSide,
    /// The side scoped to the second chain of the pair.
    pub b_side: ChannelSide,
}

/// What the Channel Builder is to be invoked with, over the connection the
/// caller already holds: the delivery semantics, one untagged port identifier
/// per side, and an optional version override (`None` leaves the builder to
/// negotiate its default).
pub struct ChannelRequest {
    /// The delivery semantics to build the channel with.
    pub ordering: ChannelOrdering,
    /// The port on the first chain, unwrapped from its tags for the builder.
    pub port_a: PortId,
    /// The port on the second chain, unwrapped from its tags for the builder.
    pub port_b: PortId,
    /// The version override, or `None` for the builder's negotiated default.
    pub version: Option<String>,
}

/// The bootstrapped channel record: the channel as the builder reported it,
/// plus, redundantly, the two channel identifiers and the two port
/// identifiers tagged with their chain roles, so that a consumer reads
/// role-disambiguated identifiers without re-deriving them from the untagged
/// channel.
pub struct Channel<ChainA, ChainB> {
    /// The channel as the Channel Builder reported it.
    pub channel: BaseChannel,
    /// The identifier assigned by chain A, tagged with A's perspective.
    pub channel_id_a: DualTagged<ChainA, ChainB, ChannelId>,
    /// The identifier assigned by chain B, tagged with B's perspective.
    pub channel_id_b: DualTagged<ChainB, ChainA, ChannelId>,
    /// The port on chain A, tagged with A's perspective.
    pub port_a: DualTagged<ChainA, ChainB, PortId>,
    /// The port on chain B, tagged with B's perspective.
    pub port_b: DualTagged<ChainB, ChainA, PortId>,
}

} // verus!
