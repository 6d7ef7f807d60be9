//! What the host side of a session shares: its failures, its milestones, the
//! notices that it prints and the judgements that its steps rest on.

use crate::failure::{AuditError, Cause, IoFailure, ProtocolError, TerminalError};
use crate::network::{
    ApplicationStreamError, ConnectionBinding, EndpointError, PeerId, SECOND,
};
use crate::pake::OpaquePakeError;
use crate::protocol::RelayProtocolError;
use vstd::prelude::*;
use vstd::string::StringExecFns;

verus! {

/// Bound of one message of an authentication or terminal exchange.
pub const EXCHANGE_TIMEOUT: u64 = 10 * SECOND;

/// Bound of the wait for a controller's connections to settle before the
/// authentication.
pub const PRE_AUTH_QUIESCENCE_TIMEOUT: u64 = 3 * SECOND;

/// Bound of the wait for the controller to acknowledge the end of a terminal.
pub const TERMINAL_COMPLETION_TIMEOUT: u64 = 2 * SECOND;

/// User-visible milestones emitted while a host advertises and serves one terminal.
#[derive(Debug, Clone, Copy, PartialEq, Eq, Structural)]
pub enum HostStage {
    ConnectingRelay,
    ReservingRelay,
    RegisteringHost,
    WaitingForController,
    ReconnectingRelay,
    AuthenticatingController,
    StartingTerminal,
    TerminalActive,
}

/// The access policy that a relay advertises.
#[derive(Debug, Clone, Copy, PartialEq, Eq, Structural)]
pub enum RelayAccessMode {
    Standard,
    /// Sessions are audited.
    Enterprise,
}

/// What a target session is told.
#[derive(Debug, Clone, Copy, PartialEq, Eq, Structural)]
pub enum SessionEvent {
    BeginAuthentication,
    AuthenticationFailed,
    AuthenticationSucceeded,
    TerminalStreamsReady,
    TerminalStartFailed,
    TerminalReadyFlushed,
    ShellExited,
    ConnectionLost,
    ExtraConnection,
}

/// Host-side failures, all of which preserve the one-use state machine semantics.
#[derive(Debug, Clone, Copy, PartialEq, Eq, Structural)]
pub enum HostError {
    Endpoint(EndpointError),
    Relay(RelayProtocolError),
    Application(ApplicationStreamError),
    Random,
    Pake(OpaquePakeError),
    PeerIdentity,
    Timeout,
    Io(IoFailure),
    Protocol(ProtocolError),
    Session,
    Terminal(TerminalError),
    ConnectionLost,
    RelayAccessUnavailable,
    RelayAccessChanged,
    ProtocolRegistrationEnded,
    Interrupted,
    Output(IoFailure),
    Audit(AuditError),
}

impl HostError {
    /// The text of the message. A failure of the terminal or of the audit has
    /// none here: its message is that failure's own.
    pub open spec fn text(self) -> Option<Seq<char>> {
        match self {
            HostError::Endpoint(error) => Some(error.text()),
            HostError::Relay(error) => Some(error.text()),
            HostError::Application(_) => Some(
                "failed to register an endpoint application protocol"@,
            ),
            HostError::Random => Some("secure random generation failed"@),
            HostError::Pake(_) => Some("OPAQUE authentication failed"@),
            HostError::PeerIdentity => Some(
                "an endpoint identity could not be represented on the wire"@,
            ),
            HostError::Timeout => Some("an authentication or terminal exchange timed out"@),
            HostError::Io(_) => Some("endpoint protocol I/O failed"@),
            HostError::Protocol(_) => Some("an endpoint sent an invalid protocol message"@),
            HostError::Session => Some("the target session state transition was rejected"@),
            HostError::Terminal(_) => None,
            HostError::ConnectionLost => Some("the controller connection was lost"@),
            HostError::RelayAccessUnavailable => Some(
                "the relay did not advertise a supported access policy"@,
            ),
            HostError::RelayAccessChanged => Some(
                "the relay access policy changed while recovering the host connection"@,
            ),
            HostError::ProtocolRegistrationEnded => Some(
                "a required inbound application protocol registration ended"@,
            ),
            HostError::Interrupted => Some("the host was interrupted"@),
            HostError::Output(_) => Some("failed to report the connection code"@),
            HostError::Audit(_) => None,
        }
    }

    /// What follows the text of the message: all of it for a failure of the
    /// terminal or of the audit.
    pub open spec fn origin(self) -> Option<Cause> {
        match self {
            HostError::Endpoint(error) => error.origin(),
            HostError::Relay(error) => error.origin(),
            HostError::Terminal(error) => Some(Cause::Terminal(error)),
            HostError::Audit(error) => Some(Cause::Audit(error)),
            _ => None,
        }
    }

    /// What follows the message.
    pub fn cause(&self) -> (cause: Option<Cause>)
        ensures
            cause == self.origin(),
    {
        match self {
            HostError::Endpoint(error) => error.cause(),
            HostError::Relay(error) => error.cause(),
            HostError::Terminal(error) => Some(Cause::Terminal(*error)),
            HostError::Audit(error) => Some(Cause::Audit(*error)),
            _ => None,
        }
    }

    /// The message shown for the failure, unless all of it is that of a terminal
    /// or audit failure.
    pub fn message(&self) -> (text: Option<String>)
        ensures
            text is Some <==> self.text() is Some,
            text is Some ==> text->0@ == self.text()->0,
    {
        let text = match self {
            HostError::Endpoint(error) => {
                return Some(error.message());
            },
            HostError::Relay(error) => {
                return Some(error.message());
            },
            HostError::Application(_) => "failed to register an endpoint application protocol",
            HostError::Random => "secure random generation failed",
            HostError::Pake(_) => "OPAQUE authentication failed",
            HostError::PeerIdentity => "an endpoint identity could not be represented on the wire",
            HostError::Timeout => "an authentication or terminal exchange timed out",
            HostError::Io(_) => "endpoint protocol I/O failed",
            HostError::Protocol(_) => "an endpoint sent an invalid protocol message",
            HostError::Session => "the target session state transition was rejected",
            HostError::Terminal(_) => {
                return None;
            },
            HostError::ConnectionLost => "the controller connection was lost",
            HostError::RelayAccessUnavailable => {
                "the relay did not advertise a supported access policy"
            },
            HostError::RelayAccessChanged => {
                "the relay access policy changed while recovering the host connection"
            },
            HostError::ProtocolRegistrationEnded => {
                "a required inbound application protocol registration ended"
            },
            HostError::Interrupted => "the host was interrupted",
            HostError::Output(_) => "failed to report the connection code",
            HostError::Audit(_) => {
                return None;
            },
        };
        Some(text.to_owned())
    }
}

// ---------------------------------------------------------------------------
// Judgements
// ---------------------------------------------------------------------------

/// The relay may succeed after a reconnect where it failed this way.
pub open spec fn retryable(error: RelayProtocolError) -> bool {
    error is Endpoint || error is Timeout || error is Io || error is Capacity
        || error is ReservationRequired || error is RetryExhausted
}

/// Whether the relay may succeed after a reconnect where it failed this way.
pub fn retryable_relay_error(error: &RelayProtocolError) -> (retry: bool)
    ensures
        retry == retryable(*error),
{
    matches!(
        error,
        RelayProtocolError::Endpoint(_)
            | RelayProtocolError::Timeout
            | RelayProtocolError::Io(_)
            | RelayProtocolError::Capacity
            | RelayProtocolError::ReservationRequired
            | RelayProtocolError::RetryExhausted
    )
}

/// What a session is told of a broken binding.
pub open spec fn event_of_binding(error: EndpointError) -> SessionEvent {
    if error == EndpointError::AdditionalBoundConnection {
        SessionEvent::ExtraConnection
    } else {
        SessionEvent::ConnectionLost
    }
}

/// What a session is told of a broken binding.
pub fn binding_event(error: &EndpointError) -> (event: SessionEvent)
    ensures
        event == event_of_binding(*error),
{
    if matches!(error, EndpointError::AdditionalBoundConnection) {
        SessionEvent::ExtraConnection
    } else {
        SessionEvent::ConnectionLost
    }
}

/// What a session is told of a failure: that of its binding, or `fallback`.
pub open spec fn event_of_error(error: HostError, fallback: SessionEvent) -> SessionEvent {
    match error {
        HostError::Endpoint(endpoint) => event_of_binding(endpoint),
        _ => fallback,
    }
}

/// What a session is told of a failure: that of its binding, or `fallback`.
pub fn host_error_event(error: &HostError, fallback: SessionEvent) -> (event: SessionEvent)
    ensures
        event == event_of_error(*error, fallback),
{
    match error {
        HostError::Endpoint(endpoint) => binding_event(endpoint),
        _ => fallback,
    }
}

/// The peer whose connections are all closed before the host waits again: that
/// of a binding which an additional connection invalidated.
pub open spec fn peer_to_settle(binding: ConnectionBinding, error: EndpointError) -> Option<
    PeerId,
> {
    if error == EndpointError::AdditionalBoundConnection {
        Some(binding.peer)
    } else {
        None
    }
}

/// The peer whose connections are all closed before the host waits again: that
/// of a binding which an additional connection invalidated.
pub fn settle_binding_change(binding: ConnectionBinding, error: &EndpointError) -> (peer: Option<
    PeerId,
>)
    ensures
        peer == peer_to_settle(binding, *error),
{
    if matches!(error, EndpointError::AdditionalBoundConnection) {
        Some(binding.peer())
    } else {
        None
    }
}

/// What a received shutdown signal means; waiting for one can itself fail.
pub open spec fn interrupted(signal: Result<(), IoFailure>) -> HostError {
    match signal {
        Ok(_) => HostError::Interrupted,
        Err(failure) => HostError::Io(failure),
    }
}

/// What a received shutdown signal means; waiting for one can itself fail.
pub fn interruption(signal: Result<(), IoFailure>) -> (error: HostError)
    ensures
        error == interrupted(signal),
{
    match signal {
        Ok(()) => HostError::Interrupted,
        Err(failure) => HostError::Io(failure),
    }
}

// ---------------------------------------------------------------------------
// Notices
// ---------------------------------------------------------------------------

/// The line that announces a connection code.
pub fn connection_code_line(code: &str) -> (line: String)
    ensures
        line@ == "Connection code: "@ + code@ + "\n"@,
{
    "Connection code: ".to_owned().concat(code).concat("\n")
}

/// The line that says that an earlier connection code was replaced.
pub fn replacement_notice() -> (line: String)
    ensures
        line@ == "Connection code changed; the previous code is no longer valid.\n"@,
{
    "Connection code changed; the previous code is no longer valid.\n".to_owned()
}

// ---------------------------------------------------------------------------
// The pair of terminal streams
// ---------------------------------------------------------------------------

/// The two streams of a terminal, until both are there. The first of each kind
/// is kept.
pub struct PendingPair<D, C> {
    data: Option<D>,
    control: Option<C>,
}

impl<D, C> View for PendingPair<D, C> {
    type V = (Option<D>, Option<C>);

    closed spec fn view(&self) -> (Option<D>, Option<C>) {
        (self.data, self.control)
    }
}

impl<D, C> PendingPair<D, C> {
    #[must_use]
    pub fn new() -> (pair: Self)
        ensures
            pair@ == (None::<D>, None::<C>),
    {
        PendingPair { data: None, control: None }
    }

    pub fn needs_data(&self) -> (needed: bool)
        ensures
            needed == (self@.0 is None),
    {
        self.data.is_none()
    }

    pub fn needs_control(&self) -> (needed: bool)
        ensures
            needed == (self@.1 is None),
    {
        self.control.is_none()
    }

    /// Keeps the data stream, unless there is one.
    pub fn insert_data(&mut self, data: D)
        ensures
            final(self)@ == (
                if old(self)@.0 is None {
                    Some(data)
                } else {
                    old(self)@.0
                },
                old(self)@.1,
            ),
    {
        if self.data.is_none() {
            self.data = Some(data);
        }
    }

    /// Keeps the control stream, unless there is one.
    pub fn insert_control(&mut self, control: C)
        ensures
            final(self)@ == (
                old(self)@.0,
                if old(self)@.1 is None {
                    Some(control)
                } else {
                    old(self)@.1
                },
            ),
    {
        if self.control.is_none() {
            self.control = Some(control);
        }
    }

    /// Hands both streams out once both are there.
    pub fn take_complete(&mut self) -> (complete: Option<(D, C)>)
        ensures
            match (old(self)@.0, old(self)@.1) {
                (Some(data), Some(control)) => complete == Some((data, control)) && final(self)@
                    == (None::<D>, None::<C>),
                _ => complete is None && final(self)@ == old(self)@,
            },
    {
        if self.needs_data() || self.needs_control() {
            return None;
        }
        match (self.data.take(), self.control.take()) {
            (Some(data), Some(control)) => Some((data, control)),
            _ => None,
        }
    }
}

// ---------------------------------------------------------------------------
// Laws
// ---------------------------------------------------------------------------

/// The wait for quiescence before the authentication is tighter than the bound of
/// each message that follows.
pub proof fn law_quiescence_is_tighter_than_an_exchange()
    ensures
        PRE_AUTH_QUIESCENCE_TIMEOUT < EXCHANGE_TIMEOUT,
        TERMINAL_COMPLETION_TIMEOUT < EXCHANGE_TIMEOUT,
{
}

/// A session is told that its connection was lost, or that another one came,
/// only for a failure of its binding or where that is the fallback.
pub proof fn law_only_a_binding_failure_changes_the_event(error: HostError, fallback: SessionEvent)
    ensures
        !(error is Endpoint) ==> event_of_error(error, fallback) == fallback,
        error is Endpoint ==> (event_of_error(error, fallback) == SessionEvent::ExtraConnection
            <==> error->Endpoint_0 == EndpointError::AdditionalBoundConnection),
{
}

/// A relay that failed for want of a connection, of time or of room may succeed after a
/// reconnect; one that refused, or that broke the protocol, does not.
pub proof fn law_refusals_of_the_relay_are_final(error: RelayProtocolError)
    ensures
        !retryable(error) <==> error is Protocol || error is Conflict || error is LocatorMismatch
            || error is Unavailable || error is InvalidPeerId || error is UnexpectedResponse
            || error is EnterpriseRejected || error is EnterpriseExpired,
{
}

/// An additional connection is told apart from a lost one, and only it has every
/// connection of the bound peer closed.
pub proof fn law_an_additional_connection_is_told_apart(
    binding: ConnectionBinding,
    error: EndpointError,
)
    ensures
        event_of_binding(EndpointError::AdditionalBoundConnection) == SessionEvent::ExtraConnection,
        peer_to_settle(binding, EndpointError::AdditionalBoundConnection) == Some(binding.peer),
        error != EndpointError::AdditionalBoundConnection ==> event_of_binding(error)
            == SessionEvent::ConnectionLost && peer_to_settle(binding, error) is None,
{
}

/// A signal interrupts the host, and a failure to wait for one is passed on.
pub proof fn law_a_signal_interrupts(failure: IoFailure)
    ensures
        interrupted(Ok(())) == HostError::Interrupted,
        interrupted(Err(failure)) == HostError::Io(failure),
{
}

} // verus!
