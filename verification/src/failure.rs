//! Failures of what an endpoint is built on, as far as its decisions tell them
//! apart.

use vstd::prelude::*;

verus! {

/// A failure of a byte stream.
#[derive(Debug, Clone, Copy, PartialEq, Eq, Structural)]
pub enum IoFailure {
    /// The stream ended inside a value.
    UnexpectedEof,
    /// What was looked for does not exist.
    NotFound,
    /// Any other failure.
    Other,
}

/// Declares [`std::io::Error`], which is only carried and asked for its kind.
#[verifier::external_type_specification]
#[verifier::external_body]
pub struct ExIoError(std::io::Error);

/// The kind of an I/O error, as far as it is told apart.
pub uninterp spec fn io_kind(error: std::io::Error) -> IoFailure;

/// [`std::io::Error::kind`]: the kind of an error, by which it is named.
#[verifier::external_body]
pub(crate) fn kind_of_io(error: &std::io::Error) -> (kind: IoFailure)
    ensures
        kind == io_kind(*error),
{
    match error.kind() {
        std::io::ErrorKind::UnexpectedEof => IoFailure::UnexpectedEof,
        std::io::ErrorKind::NotFound => IoFailure::NotFound,
        _ => IoFailure::Other,
    }
}

/// The text of a failure that arose outside the library, by the number under which
/// the program keeps it.
#[derive(Debug, Clone, Copy, PartialEq, Eq, Structural)]
pub struct OutsideText(pub u64);

/// The field of a message that was invalid.
#[derive(Debug, Clone, Copy, PartialEq, Eq, Structural)]
pub enum ProtocolField {
    AuthorizationUrl,
    /// Any other field.
    Other,
}

/// Why a message is invalid.
#[derive(Debug, Clone, Copy, PartialEq, Eq, Structural)]
pub enum ProtocolError {
    InvalidLength { expected: usize, actual: usize },
    TrailingBytes,
    InvalidField(ProtocolField),
    /// Any other reason.
    Other,
}

/// A failure of the terminal behind a session.
#[derive(Debug, Clone, Copy, PartialEq, Eq, Structural)]
pub enum TerminalError {
    Open,
    TaskStopped,
    CleanupTimeout,
    /// Any other failure.
    Other(OutsideText),
}

/// A failure of the session audit.
#[derive(Debug, Clone, Copy, PartialEq, Eq, Structural)]
pub enum AuditError {
    /// The audit failed and the session must not go on without it.
    FailedClosed,
    /// The peer does not take part in the audit.
    PeerUnsupported,
    /// Any other failure.
    Other(OutsideText),
}

/// The part of a message whose text is not the library's own.
#[derive(Debug, Clone, Copy, PartialEq, Eq, Structural)]
pub enum Cause {
    /// The text that the program keeps.
    Kept(OutsideText),
    /// That of the terminal's failure.
    Terminal(TerminalError),
    /// That of the audit's failure.
    Audit(AuditError),
}

} // verus!
