//! What can go wrong in a sandbox invocation. Nothing is retried: every
//! failure ends the invocation that met it.

use crate::dockerapi::stream::StreamError;
use vstd::prelude::*;

verus! {

/// The kinds of failure.
#[derive(Copy, Clone, Debug, PartialEq, Eq, Structural)]
pub enum ErrorKind {
    /// The socket is missing, is no socket, or refused the connection.
    Connection,
    /// The runtime, or the driver of an invocation, did not keep to the
    /// protocol.
    Protocol,
    /// The runtime refused a request.
    Rejection,
    /// A stream of frames ended inside a frame.
    TruncatedStream,
}

/// A failure, with the operation that met it.
#[derive(Clone, Debug, PartialEq)]
pub enum SandboxError {
    /// No connection to the runtime could be made.
    Connection { operation: String, cause: String },
    /// A response was malformed, or its body did not have the expected
    /// shape.
    Protocol { operation: String, cause: String },
    /// The text of a request's address is no URI.
    InvalidUri { operation: String, uri: String },
    /// The body of a request could not be written.
    Encoding { operation: String },
    /// A header of a stream of frames holds a tag that names no channel.
    InvalidTag { operation: String, tag: u8 },
    /// The runtime answered with a status outside 200 to 299; the body is
    /// its message, as it came.
    Rejection { operation: String, status: u16, body: Vec<u8> },
    /// A stream of frames ended inside a frame.
    TruncatedStream { operation: String },
    /// A container that was created is not in the listing that follows.
    ContainerMissing,
    /// An invocation was handed an event that does not answer its last
    /// action.
    UnexpectedEvent,
}

impl SandboxError {
    /// The kind of a failure.
    pub open spec fn spec_kind(self) -> ErrorKind {
        match self {
            SandboxError::Connection { .. } => ErrorKind::Connection,
            SandboxError::Protocol { .. } => ErrorKind::Protocol,
            SandboxError::InvalidUri { .. } => ErrorKind::Protocol,
            SandboxError::Encoding { .. } => ErrorKind::Protocol,
            SandboxError::InvalidTag { .. } => ErrorKind::Protocol,
            SandboxError::Rejection { .. } => ErrorKind::Rejection,
            SandboxError::TruncatedStream { .. } => ErrorKind::TruncatedStream,
            SandboxError::ContainerMissing => ErrorKind::Protocol,
            SandboxError::UnexpectedEvent => ErrorKind::Protocol,
        }
    }

    /// The kind of this failure.
    pub fn kind(&self) -> (kind: ErrorKind)
        ensures
            kind == self.spec_kind(),
    {
        match self {
            SandboxError::Connection { .. } => ErrorKind::Connection,
            SandboxError::Protocol { .. } => ErrorKind::Protocol,
            SandboxError::InvalidUri { .. } => ErrorKind::Protocol,
            SandboxError::Encoding { .. } => ErrorKind::Protocol,
            SandboxError::InvalidTag { .. } => ErrorKind::Protocol,
            SandboxError::Rejection { .. } => ErrorKind::Rejection,
            SandboxError::TruncatedStream { .. } => ErrorKind::TruncatedStream,
            SandboxError::ContainerMissing => ErrorKind::Protocol,
            SandboxError::UnexpectedEvent => ErrorKind::Protocol,
        }
    }

    /// The failure of an operation whose stream of frames could not be read
    /// to its end.
    pub fn from_stream(operation: String, error: StreamError) -> (failure: SandboxError)
        ensures
            failure == match error {
                StreamError::InvalidTag(tag) => SandboxError::InvalidTag { operation, tag },
                StreamError::Truncated => SandboxError::TruncatedStream { operation },
            },
    {
        match error {
            StreamError::InvalidTag(tag) => SandboxError::InvalidTag { operation, tag },
            StreamError::Truncated => SandboxError::TruncatedStream { operation },
        }
    }
}

} // verus!
