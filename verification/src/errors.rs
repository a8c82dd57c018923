//! The bridge's failure taxonomy.

use vstd::prelude::*;

verus! {

/// Every way a bridge operation can fail.
///
/// `Spawn` and `Worker` carry text: a spawn failure carries the host's
/// description of why the process could not be launched, and `Worker` carries,
/// verbatim, the text of the worker's own error envelope. All other variants
/// are internally detected conditions with a fixed meaning.
#[derive(Debug, PartialEq, Eq)]
pub enum BridgeError {
    /// The worker executable could not be launched.
    Spawn(String),
    /// An operation that needs a live worker was attempted outside `Ready`.
    NotRunning,
    /// No response line arrived before the request's deadline.
    Timeout,
    /// A response line was malformed: not valid JSON, or not a well-formed
    /// response envelope.
    Protocol,
    /// The worker terminated while an operation depended on it.
    ChildExited,
    /// The worker answered with an error envelope; the field is its message.
    Worker(String),
}

} // verus!
