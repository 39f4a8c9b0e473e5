//! Typed cross-chain channel bootstrap.
//!
//! A channel between two chains is the highest-level handshake primitive: it
//! rests on an established connection, which in turn rests on a pair of
//! foreign-client relationships. This crate holds the typed orchestration
//! layer for bootstrapping such a channel: a zero-cost tagging discipline
//! that keeps values scoped to one chain's perspective from being used where
//! the other chain's perspective is required, and the bootstrap protocol that
//! sequences connection creation, channel creation and post-condition
//! extraction into a single fallible operation.
//!
//! The connection and channel handshakes themselves are external services:
//! they submit transactions and wait on each chain. The caller performs those
//! calls and reports each outcome back to the phase values of [`bootstrap`],
//! which decide every step and assemble the final record.

pub mod bootstrap;
pub mod channel;
pub mod errors;
pub mod identifiers;
pub mod tagged;
