//! The error taxonomy surfaced by the query facade and the subscription
//! registry. Every error is produced at the point of detection and
//! returned to the caller unchanged; none is retried internally.

use vstd::prelude::*;

verus! {

/// Errors surfaced to RPC callers. They map one-to-one onto wire error
/// shapes; the string payloads carry the diagnostic messages.
#[derive(Clone, Debug, PartialEq, Eq)]
pub enum Error {
    /// The reference does not resolve to a canonical block.
    UnknownBlock,
    /// State existed historically at the block but is no longer retained.
    StatePruned,
    /// Internal invariant violation (for example a missing tip nonce).
    Database(String),
    /// Malformed bytes where an encoded header was expected.
    Decode,
    /// An execution-level failure reported by the backend, with its message.
    Call(String),
    /// A runtime exception during call execution, with the exception
    /// message and the raw output bytes produced so far.
    Vm(String, Vec<u8>),
    /// Malformed subscription parameters; carries the parameter name and
    /// the expectation that was violated.
    InvalidParams(String, String),
    /// Intentionally unsupported surface.
    Unimplemented,
    /// Intentionally removed surface, with the deprecation notice.
    Deprecated(String),
}

} // verus!
