//! Failures of the relay loops and of session setup.
use vstd::prelude::*;

verus! {

/// Why a relay loop stopped abnormally.
#[derive(Clone, Copy, Debug, PartialEq, Eq, Structural)]
pub enum RelayError {
    /// The connection under the stream failed (peer vanished, protocol violation).
    Stream,
    /// A chunk larger than was asked for, or one that reaches past the largest offset.
    MalformedChunk,
    /// A chunk that does not start where the bytes received so far end.
    OutOfOrder,
    /// The transport refused to finish the send half.
    Finish,
    /// Local input could not be read.
    LocalInput,
    /// Local output could not be written.
    LocalOutput,
    /// The driver reported an event that the loop was not waiting for.
    UnexpectedEvent,
}

/// Why a session could not be established.
#[derive(Clone, Copy, Debug, PartialEq, Eq, Structural)]
pub enum SetupError {
    /// The listening address could not be bound.
    Bind,
    /// The endpoint or its trust policy could not be configured.
    Config,
    /// The peer could not be reached, or the handshake was rejected or timed out.
    Connect,
    /// The connection closed before a bidirectional stream was opened.
    Stream,
}

/// Why a session ended with a failure.
#[derive(Clone, Copy, Debug, PartialEq, Eq, Structural)]
pub enum SessionError {
    Setup(SetupError),
    Inbound(RelayError),
    Outbound(RelayError),
    /// The driver reported an event that the session was not waiting for.
    UnexpectedEvent,
}

} // verus!
