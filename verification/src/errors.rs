//! The failures a channel bootstrap can surface.
//!
//! A failure of a delegated builder is propagated verbatim, carrying that
//! builder's own report; the two invariant checks this layer owns raise a
//! fresh error naming the side whose channel identifier was missing.

use vstd::prelude::*;

verus! {

/// One of the two chains taking part in a bootstrap.
#[derive(Debug, Clone, Copy, PartialEq, Eq, Structural)]
pub enum Side {
    /// The first chain of the ordered pair.
    A,
    /// The second chain of the ordered pair.
    B,
}

/// Why a channel bootstrap failed.
#[derive(Debug, PartialEq, Eq)]
pub enum BootstrapError {
    /// The Connection Builder reported this failure; it is carried verbatim.
    ConnectionBuildFailure(String),
    /// The Channel Builder reported this failure; it is carried verbatim.
    ChannelBuildFailure(String),
    /// A builder reported success, yet the named side of the channel carries
    /// no assigned identifier: a breach of the builder's contract, raised
    /// locally by this layer.
    MissingChannelId(Side),
}

} // verus!
