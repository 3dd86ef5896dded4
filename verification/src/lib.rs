//! A verified core of an Ethereum-style JSON-RPC gateway that fronts a
//! backend chain with no pending-block concept: symbolic block references
//! are resolved to concrete query keys, state queries are guarded against
//! unknown blocks, and new-block / filtered-log events are fanned out to
//! registered subscribers with range clamping.

pub mod types;
pub mod block_ref;
pub mod errors;
pub mod header;
pub mod chain;
pub mod wire;
pub mod filter;
pub mod eth;
pub mod pubsub;
