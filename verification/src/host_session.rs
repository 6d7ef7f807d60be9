//! One host session: from waiting for a controller to the end of at most one
//! committed terminal.

use crate::failure::{AuditError, TerminalError};
use crate::host::{
    binding_event, host_error_event, settle_binding_change, HostError, HostStage, RelayAccessMode,
    SessionEvent,
};
use crate::network::{ConnectionBinding, EndpointError, PeerId};
use crate::protocol::RelayProtocolError;
use vstd::prelude::*;

verus! {

/// Where a host session stands: what it waits for.
#[allow(inconsistent_fields)]
#[derive(Debug, Clone, Copy, PartialEq, Eq)]
pub enum HostState {
    /// Whether the relay lease is still usable.
    CheckingLease,
    /// The relay to be reached again.
    Recovering,
    /// A controller that wants to authenticate.
    AwaitingAuth,
    /// The controller's connections to settle.
    Quiescing,
    /// The controller's first message.
    ReadingHello(ConnectionBinding),
    /// The verdict of the rate limit.
    CheckingRate(ConnectionBinding),
    /// The answer to a controller that came too early to be sent.
    RefusingRate(ConnectionBinding),
    /// The session to take note of the beginning authentication.
    BeginningAuth(ConnectionBinding),
    /// The authentication to end.
    Authenticating(ConnectionBinding),
    /// The session to take note of a rejected controller.
    Rejecting,
    /// The session to take note of a broken binding.
    Unbinding { binding: ConnectionBinding, error: EndpointError },
    /// The session to take note of the authentication.
    ConfirmingAuth(ConnectionBinding),
    /// The acknowledgement to be written and both terminal streams to arrive.
    AwaitingStreams(ConnectionBinding),
    /// The session to take note of the streams.
    AcceptingStreams(ConnectionBinding),
    /// The directory of the audit.
    LocatingAudit(ConnectionBinding),
    /// The terminal to start.
    StartingTerminal(ConnectionBinding),
    /// The session to take note of a terminal that did not start.
    FailingStart {
        binding: ConnectionBinding,
        error: HostError,
        /// Whether the failure was that of the session's own inputs.
        fatal: bool,
    },
    /// The connections of a controller to be closed.
    Settling,
    /// The session to take note of the started terminal.
    Committing(ConnectionBinding),
    /// The one-use locator to be released.
    Releasing(ConnectionBinding),
    /// The terminal to end.
    Bridging(ConnectionBinding),
    /// The terminal to be cleaned up.
    ShuttingDown { binding: ConnectionBinding, outcome: Result<u32, HostError> },
    /// The audit to be finalized.
    Finalizing { code: u32, shutdown: Result<(), TerminalError> },
    /// The session to take note of the shell's exit.
    Exiting { code: u32, shutdown: Result<(), TerminalError> },
    /// The audit to be closed without a manifest.
    ClosingInterrupted { error: HostError },
    /// The session to take note of its loss.
    Losing { error: HostError },
    /// Nothing: the session has come to an end.
    Finished,
}

/// What happened to a host session.
#[derive(Debug, Clone, Copy, PartialEq, Eq)]
pub enum HostEvent {
    /// Whether the relay lease is usable.
    Lease(bool),
    Recovered(Result<(), HostError>),
    /// A controller wants to authenticate; none when the lease became unusable.
    Auth(Result<Option<PeerId>, HostError>),
    Quiescent(Result<ConnectionBinding, HostError>),
    /// A step of the controller ended; the outer failure is that of the session's
    /// own inputs.
    Driven(Result<Result<(), HostError>, HostError>),
    /// Whether the rate limit admits another attempt.
    Rate(bool),
    /// Whether the session accepted what it was told.
    Applied(bool),
    Streams(Result<(), HostError>),
    Located(Result<(), HostError>),
    Released(Result<(), RelayProtocolError>),
    Bridged(Result<u32, HostError>),
    ShutDown(Result<(), TerminalError>),
    /// The finalization ended; the outer failure is that of the binding.
    Finalized(Result<Result<(), AuditError>, EndpointError>),
    TailClosed,
    PeerClosed(Result<(), EndpointError>),
}

/// What a host session wants done.
#[derive(Debug, Clone, Copy, PartialEq, Eq)]
pub enum HostAction {
    CheckLease,
    Recover,
    AwaitAuth,
    AwaitQuiescence(PeerId),
    ReadHello(ConnectionBinding),
    CheckRate,
    SendRetry(ConnectionBinding),
    /// Tell the session, and learn whether it accepts it.
    Apply(SessionEvent),
    Authenticate(ConnectionBinding),
    AwaitStreams(ConnectionBinding),
    LocateAudit,
    StartTerminal(ConnectionBinding),
    Release(ConnectionBinding),
    Bridge(ConnectionBinding),
    ShutDown,
    /// Finalize the audit with the shell's exit code.
    Finalize { binding: ConnectionBinding, code: u8 },
    CloseInterrupted,
    ClosePeer(PeerId),
    Finish(Result<u32, HostError>),
}

/// What follows an event: where the session stands, the milestone to report
/// first, and what to do.
#[derive(Debug, Clone, Copy, PartialEq, Eq)]
pub struct HostStep {
    pub state: HostState,
    pub stage: Option<HostStage>,
    pub action: HostAction,
}

/// The event is one that can happen in the state.
pub open spec fn host_awaits(state: HostState, event: HostEvent) -> bool {
    match state {
        HostState::CheckingLease => event is Lease,
        HostState::Recovering => event is Recovered,
        HostState::AwaitingAuth => event is Auth,
        HostState::Quiescing => event is Quiescent,
        HostState::ReadingHello(_)
        | HostState::RefusingRate(_)
        | HostState::Authenticating(_)
        | HostState::StartingTerminal(_) => event is Driven,
        HostState::CheckingRate(_) => event is Rate,
        HostState::BeginningAuth(_)
        | HostState::Rejecting
        | HostState::Unbinding { .. }
        | HostState::ConfirmingAuth(_)
        | HostState::AcceptingStreams(_)
        | HostState::FailingStart { .. }
        | HostState::Committing(_)
        | HostState::Exiting { .. }
        | HostState::Losing { .. } => event is Applied,
        HostState::AwaitingStreams(_) => event is Streams,
        HostState::LocatingAudit(_) => event is Located,
        HostState::Settling => event is PeerClosed,
        HostState::Releasing(_) => event is Released,
        HostState::Bridging(_) => event is Bridged,
        HostState::ShuttingDown { .. } => event is ShutDown,
        HostState::Finalizing { .. } => event is Finalized,
        HostState::ClosingInterrupted { .. } => event is TailClosed,
        HostState::Finished => false,
    }
}

/// A step without a milestone.
pub open spec fn host_go(state: HostState, action: HostAction) -> HostStep {
    HostStep { state, stage: None, action }
}

/// The session waits for a controller again.
pub open spec fn host_restart() -> HostStep {
    HostStep {
        state: HostState::CheckingLease,
        stage: Some(HostStage::WaitingForController),
        action: HostAction::CheckLease,
    }
}

/// The session has come to an end.
pub open spec fn host_finish(result: Result<u32, HostError>) -> HostStep {
    host_go(HostState::Finished, HostAction::Finish(result))
}

/// The session deals with a broken binding and waits for a controller again.
pub open spec fn host_settle(binding: ConnectionBinding, error: EndpointError) -> HostStep {
    match crate::host::peer_to_settle(binding, error) {
        Some(peer) => host_go(HostState::Settling, HostAction::ClosePeer(peer)),
        None => host_restart(),
    }
}

/// What follows an event before a controller begins to authenticate.
pub open spec fn host_after_waiting(state: HostState, event: HostEvent) -> HostStep {
    match state {
        HostState::CheckingLease => if event->Lease_0 {
            host_go(HostState::AwaitingAuth, HostAction::AwaitAuth)
        } else {
            host_go(HostState::Recovering, HostAction::Recover)
        },
        HostState::Recovering => match event->Recovered_0 {
            Ok(_) => HostStep {
                state: HostState::AwaitingAuth,
                stage: Some(HostStage::WaitingForController),
                action: HostAction::AwaitAuth,
            },
            Err(error) => host_finish(Err(error)),
        },
        HostState::AwaitingAuth => match event->Auth_0 {
            Ok(Some(controller)) => HostStep {
                state: HostState::Quiescing,
                stage: Some(HostStage::AuthenticatingController),
                action: HostAction::AwaitQuiescence(controller),
            },
            Ok(None) => host_restart(),
            Err(error) => host_finish(Err(error)),
        },
        HostState::Quiescing => match event->Quiescent_0 {
            Ok(binding) => host_go(
                HostState::ReadingHello(binding),
                HostAction::ReadHello(binding),
            ),
            Err(_) => host_restart(),
        },
        HostState::ReadingHello(binding) => match event->Driven_0 {
            Ok(Ok(_)) => host_go(HostState::CheckingRate(binding), HostAction::CheckRate),
            Ok(Err(_)) => host_restart(),
            Err(HostError::Endpoint(error)) => host_settle(binding, error),
            Err(error) => host_finish(Err(error)),
        },
        HostState::CheckingRate(binding) => if event->Rate_0 {
            host_go(
                HostState::BeginningAuth(binding),
                HostAction::Apply(SessionEvent::BeginAuthentication),
            )
        } else {
            host_go(HostState::RefusingRate(binding), HostAction::SendRetry(binding))
        },
        HostState::RefusingRate(binding) => match event->Driven_0 {
            Ok(_) => host_restart(),
            Err(HostError::Endpoint(error)) => host_settle(binding, error),
            Err(error) => host_finish(Err(error)),
        },
        HostState::Settling => match event->PeerClosed_0 {
            Ok(_) => host_restart(),
            Err(error) => host_finish(Err(HostError::Endpoint(error))),
        },
        _ => host_finish(Err(HostError::Session)),
    }
}

/// What follows an event while a controller authenticates and its streams arrive.
pub open spec fn host_after_authenticating(state: HostState, event: HostEvent) -> HostStep {
    match state {
        HostState::BeginningAuth(binding) => if event->Applied_0 {
            host_go(HostState::Authenticating(binding), HostAction::Authenticate(binding))
        } else {
            host_finish(Err(HostError::Session))
        },
        HostState::Authenticating(binding) => match event->Driven_0 {
            Ok(Ok(_)) => HostStep {
                state: HostState::ConfirmingAuth(binding),
                stage: Some(HostStage::StartingTerminal),
                action: HostAction::Apply(SessionEvent::AuthenticationSucceeded),
            },
            Ok(Err(_)) => host_go(
                HostState::Rejecting,
                HostAction::Apply(SessionEvent::AuthenticationFailed),
            ),
            Err(HostError::Endpoint(error)) => host_go(
                HostState::Unbinding { binding, error },
                HostAction::Apply(crate::host::event_of_binding(error)),
            ),
            Err(error) => host_finish(Err(error)),
        },
        HostState::Rejecting => if event->Applied_0 {
            host_restart()
        } else {
            host_finish(Err(HostError::Session))
        },
        HostState::Unbinding { binding, error } => if event->Applied_0 {
            host_settle(binding, error)
        } else {
            host_finish(Err(HostError::Session))
        },
        HostState::ConfirmingAuth(binding) => if event->Applied_0 {
            host_go(HostState::AwaitingStreams(binding), HostAction::AwaitStreams(binding))
        } else {
            host_finish(Err(HostError::Session))
        },
        HostState::AwaitingStreams(binding) => match event->Streams_0 {
            Ok(_) => host_go(
                HostState::AcceptingStreams(binding),
                HostAction::Apply(SessionEvent::TerminalStreamsReady),
            ),
            Err(HostError::Endpoint(error)) => host_go(
                HostState::Unbinding { binding, error },
                HostAction::Apply(crate::host::event_of_binding(error)),
            ),
            Err(_) => host_go(
                HostState::Rejecting,
                HostAction::Apply(SessionEvent::ConnectionLost),
            ),
        },
        _ => host_finish(Err(HostError::Session)),
    }
}

/// What follows an event while the terminal starts.
pub open spec fn host_after_starting(
    access: RelayAccessMode,
    state: HostState,
    event: HostEvent,
) -> HostStep {
    match state {
        HostState::AcceptingStreams(binding) => if event->Applied_0 {
            match access {
                RelayAccessMode::Standard => host_go(
                    HostState::StartingTerminal(binding),
                    HostAction::StartTerminal(binding),
                ),
                RelayAccessMode::Enterprise => host_go(
                    HostState::LocatingAudit(binding),
                    HostAction::LocateAudit,
                ),
            }
        } else {
            host_finish(Err(HostError::Session))
        },
        HostState::LocatingAudit(binding) => match event->Located_0 {
            Ok(_) => host_go(
                HostState::StartingTerminal(binding),
                HostAction::StartTerminal(binding),
            ),
            Err(error) => host_finish(Err(error)),
        },
        HostState::StartingTerminal(binding) => match event->Driven_0 {
            Ok(Ok(_)) => host_go(
                HostState::Committing(binding),
                HostAction::Apply(SessionEvent::TerminalReadyFlushed),
            ),
            Ok(Err(error)) => host_go(
                HostState::FailingStart { binding, error, fatal: false },
                HostAction::Apply(
                    crate::host::event_of_error(error, SessionEvent::TerminalStartFailed),
                ),
            ),
            Err(error) => host_go(
                HostState::FailingStart { binding, error, fatal: true },
                HostAction::Apply(
                    crate::host::event_of_error(error, SessionEvent::TerminalStartFailed),
                ),
            ),
        },
        HostState::FailingStart { binding, error, fatal } => {
            let accepted = event->Applied_0;
            {
                if !accepted {
                    host_finish(Err(HostError::Session))
                } else {
                    match error {
                        HostError::Endpoint(endpoint) => host_settle(binding, endpoint),
                        _ => if fatal {
                            host_finish(Err(error))
                        } else {
                            host_restart()
                        },
                    }
                }
            }
        },
        HostState::Committing(binding) => if event->Applied_0 {
            HostStep {
                state: HostState::Releasing(binding),
                stage: Some(HostStage::TerminalActive),
                action: HostAction::Release(binding),
            }
        } else {
            host_finish(Err(HostError::Session))
        },
        _ => host_finish(Err(HostError::Session)),
    }
}

/// What follows an event once the terminal is active.
pub open spec fn host_after_committed(
    access: RelayAccessMode,
    state: HostState,
    event: HostEvent,
) -> HostStep {
    match state {
        HostState::Releasing(binding) => host_go(
            HostState::Bridging(binding),
            HostAction::Bridge(binding),
        ),
        HostState::Bridging(binding) => {
            let outcome = event->Bridged_0;
            host_go(
                HostState::ShuttingDown { binding, outcome },
                HostAction::ShutDown,
            )
        },
        HostState::ShuttingDown { binding, outcome } => {
            let shutdown = event->ShutDown_0;
            {
                match outcome {
                    Ok(code) => match access {
                        RelayAccessMode::Standard => host_go(
                            HostState::Exiting { code, shutdown },
                            HostAction::Apply(SessionEvent::ShellExited),
                        ),
                        RelayAccessMode::Enterprise => host_go(
                            HostState::Finalizing { code, shutdown },
                            HostAction::Finalize {
                                binding,
                                code: #[verifier::truncate]
                                (code as u8),
                            },
                        ),
                    },
                    Err(error) => match (access, error) {
                        (RelayAccessMode::Standard, _) | (_, HostError::Audit(_)) => host_go(
                            HostState::Losing { error },
                            HostAction::Apply(
                                crate::host::event_of_error(error, SessionEvent::ConnectionLost),
                            ),
                        ),
                        _ => host_go(
                            HostState::ClosingInterrupted { error },
                            HostAction::CloseInterrupted,
                        ),
                    },
                }
            }
        },
        HostState::Finalizing { code, shutdown } => match event->Finalized_0 {
            Ok(Ok(_)) => host_go(
                HostState::Exiting { code, shutdown },
                HostAction::Apply(SessionEvent::ShellExited),
            ),
            Ok(Err(error)) => host_go(
                HostState::Losing { error: HostError::Audit(error) },
                HostAction::Apply(SessionEvent::ConnectionLost),
            ),
            Err(error) => host_go(
                HostState::Losing { error: HostError::Endpoint(error) },
                HostAction::Apply(SessionEvent::ConnectionLost),
            ),
        },
        HostState::Exiting { code, shutdown } => {
            let accepted = event->Applied_0;
            {
                if !accepted {
                    host_finish(Err(HostError::Session))
                } else {
                    match shutdown {
                        Ok(_) => host_finish(Ok(code)),
                        Err(error) => host_finish(Err(HostError::Terminal(error))),
                    }
                }
            }
        },
        HostState::ClosingInterrupted { error } => host_go(
            HostState::Losing { error },
            HostAction::Apply(crate::host::event_of_error(error, SessionEvent::ConnectionLost)),
        ),
        HostState::Losing { error } => if event->Applied_0 {
            host_finish(Err(error))
        } else {
            host_finish(Err(HostError::Session))
        },
        _ => host_finish(Err(HostError::Session)),
    }
}

/// What follows an event of a session under the relay's access policy.
pub open spec fn host_after(
    access: RelayAccessMode,
    state: HostState,
    event: HostEvent,
) -> HostStep {
    match state {
        HostState::CheckingLease
        | HostState::Recovering
        | HostState::AwaitingAuth
        | HostState::Quiescing
        | HostState::ReadingHello(_)
        | HostState::CheckingRate(_)
        | HostState::RefusingRate(_)
        | HostState::Settling => host_after_waiting(state, event),
        HostState::BeginningAuth(_)
        | HostState::Authenticating(_)
        | HostState::Rejecting
        | HostState::Unbinding { .. }
        | HostState::ConfirmingAuth(_)
        | HostState::AwaitingStreams(_) => host_after_authenticating(state, event),
        HostState::AcceptingStreams(_)
        | HostState::LocatingAudit(_)
        | HostState::StartingTerminal(_)
        | HostState::FailingStart { .. }
        | HostState::Committing(_) => host_after_starting(access, state, event),
        HostState::Releasing(_)
        | HostState::Bridging(_)
        | HostState::ShuttingDown { .. }
        | HostState::Finalizing { .. }
        | HostState::Exiting { .. }
        | HostState::ClosingInterrupted { .. }
        | HostState::Losing { .. } => host_after_committed(access, state, event),
        HostState::Finished => host_finish(Err(HostError::Session)),
    }
}

fn go(state: HostState, action: HostAction) -> (step: HostStep)
    ensures
        step == host_go(state, action),
{
    HostStep { state, stage: None, action }
}

fn restart() -> (step: HostStep)
    ensures
        step == host_restart(),
{
    HostStep {
        state: HostState::CheckingLease,
        stage: Some(HostStage::WaitingForController),
        action: HostAction::CheckLease,
    }
}

fn finish(result: Result<u32, HostError>) -> (step: HostStep)
    ensures
        step == host_finish(result),
{
    go(HostState::Finished, HostAction::Finish(result))
}

fn settle(binding: ConnectionBinding, error: EndpointError) -> (step: HostStep)
    ensures
        step == host_settle(binding, error),
{
    match settle_binding_change(binding, &error) {
        Some(peer) => go(HostState::Settling, HostAction::ClosePeer(peer)),
        None => restart(),
    }
}

/// One advertised code, run through at most one committed terminal session.
pub struct HostSession {
    access: RelayAccessMode,
    state: HostState,
}

impl HostSession {
    /// The access policy that the session runs under.
    pub closed spec fn policy(self) -> RelayAccessMode {
        self.access
    }

    /// Where the session stands.
    pub closed spec fn at(self) -> HostState {
        self.state
    }

    /// Begins a session by waiting for a controller.
    pub fn new(access: RelayAccessMode) -> (begun: (Self, HostStep))
        ensures
            begun.0.policy() == access,
            begun.0.at() == begun.1.state,
            begun.1 == host_restart(),
    {
        let step = restart();
        (HostSession { access, state: step.state }, step)
    }

    /// Takes an event into account and says what to do next.
    pub fn advance(&mut self, event: HostEvent) -> (step: HostStep)
        requires
            host_awaits(old(self).at(), event),
        ensures
            step == host_after(old(self).policy(), old(self).at(), event),
            final(self).at() == step.state,
            final(self).policy() == old(self).policy(),
    {
        let step = transition(self.access, self.state, event);
        self.state = step.state;
        step
    }
}

fn waiting(state: HostState, event: HostEvent) -> (step: HostStep)
    requires
        host_awaits(state, event),
    ensures
        step == host_after_waiting(state, event),
{
    match state {
        HostState::CheckingLease => match event {
            HostEvent::Lease(usable) => if usable {
                go(HostState::AwaitingAuth, HostAction::AwaitAuth)
            } else {
                go(HostState::Recovering, HostAction::Recover)
            },
            _ => finish(Err(HostError::Session)),
        },
        HostState::Recovering => match event {
            HostEvent::Recovered(result) => match result {
                Ok(_) => HostStep {
                    state: HostState::AwaitingAuth,
                    stage: Some(HostStage::WaitingForController),
                    action: HostAction::AwaitAuth,
                },
                Err(error) => finish(Err(error)),
            },
            _ => finish(Err(HostError::Session)),
        },
        HostState::AwaitingAuth => match event {
            HostEvent::Auth(result) => match result {
                Ok(Some(controller)) => HostStep {
                    state: HostState::Quiescing,
                    stage: Some(HostStage::AuthenticatingController),
                    action: HostAction::AwaitQuiescence(controller),
                },
                Ok(None) => restart(),
                Err(error) => finish(Err(error)),
            },
            _ => finish(Err(HostError::Session)),
        },
        HostState::Quiescing => match event {
            HostEvent::Quiescent(result) => match result {
                Ok(binding) => go(
                    HostState::ReadingHello(binding),
                    HostAction::ReadHello(binding),
                ),
                Err(_) => restart(),
            },
            _ => finish(Err(HostError::Session)),
        },
        HostState::ReadingHello(binding) => match event {
            HostEvent::Driven(result) => match result {
                Ok(Ok(_)) => go(HostState::CheckingRate(binding), HostAction::CheckRate),
                Ok(Err(_)) => restart(),
                Err(HostError::Endpoint(error)) => settle(binding, error),
                Err(error) => finish(Err(error)),
            },
            _ => finish(Err(HostError::Session)),
        },
        HostState::CheckingRate(binding) => match event {
            HostEvent::Rate(admitted) => if admitted {
                go(
                    HostState::BeginningAuth(binding),
                    HostAction::Apply(SessionEvent::BeginAuthentication),
                )
            } else {
                go(HostState::RefusingRate(binding), HostAction::SendRetry(binding))
            },
            _ => finish(Err(HostError::Session)),
        },
        HostState::RefusingRate(binding) => match event {
            HostEvent::Driven(result) => match result {
                Ok(_) => restart(),
                Err(HostError::Endpoint(error)) => settle(binding, error),
                Err(error) => finish(Err(error)),
            },
            _ => finish(Err(HostError::Session)),
        },
        HostState::Settling => match event {
            HostEvent::PeerClosed(result) => match result {
                Ok(_) => restart(),
                Err(error) => finish(Err(HostError::Endpoint(error))),
            },
            _ => finish(Err(HostError::Session)),
        },
        _ => finish(Err(HostError::Session)),
    }
}

fn authenticating(state: HostState, event: HostEvent) -> (step: HostStep)
    requires
        host_awaits(state, event),
    ensures
        step == host_after_authenticating(state, event),
{
    match state {
        HostState::BeginningAuth(binding) => match event {
            HostEvent::Applied(accepted) => if accepted {
                go(HostState::Authenticating(binding), HostAction::Authenticate(binding))
            } else {
                finish(Err(HostError::Session))
            },
            _ => finish(Err(HostError::Session)),
        },
        HostState::Authenticating(binding) => match event {
            HostEvent::Driven(result) => match result {
                Ok(Ok(_)) => HostStep {
                    state: HostState::ConfirmingAuth(binding),
                    stage: Some(HostStage::StartingTerminal),
                    action: HostAction::Apply(SessionEvent::AuthenticationSucceeded),
                },
                Ok(Err(_)) => go(
                    HostState::Rejecting,
                    HostAction::Apply(SessionEvent::AuthenticationFailed),
                ),
                Err(HostError::Endpoint(error)) => go(
                    HostState::Unbinding { binding, error },
                    HostAction::Apply(binding_event(&error)),
                ),
                Err(error) => finish(Err(error)),
            },
            _ => finish(Err(HostError::Session)),
        },
        HostState::Rejecting => match event {
            HostEvent::Applied(accepted) => if accepted {
                restart()
            } else {
                finish(Err(HostError::Session))
            },
            _ => finish(Err(HostError::Session)),
        },
        HostState::Unbinding { binding, error } => match event {
            HostEvent::Applied(accepted) => if accepted {
                settle(binding, error)
            } else {
                finish(Err(HostError::Session))
            },
            _ => finish(Err(HostError::Session)),
        },
        HostState::ConfirmingAuth(binding) => match event {
            HostEvent::Applied(accepted) => if accepted {
                go(HostState::AwaitingStreams(binding), HostAction::AwaitStreams(binding))
            } else {
                finish(Err(HostError::Session))
            },
            _ => finish(Err(HostError::Session)),
        },
        HostState::AwaitingStreams(binding) => match event {
            HostEvent::Streams(result) => match result {
                Ok(_) => go(
                    HostState::AcceptingStreams(binding),
                    HostAction::Apply(SessionEvent::TerminalStreamsReady),
                ),
                Err(HostError::Endpoint(error)) => go(
                    HostState::Unbinding { binding, error },
                    HostAction::Apply(binding_event(&error)),
                ),
                Err(_) => go(
                    HostState::Rejecting,
                    HostAction::Apply(SessionEvent::ConnectionLost),
                ),
            },
            _ => finish(Err(HostError::Session)),
        },
        _ => finish(Err(HostError::Session)),
    }
}

fn starting(access: RelayAccessMode, state: HostState, event: HostEvent) -> (step: HostStep)
    requires
        host_awaits(state, event),
    ensures
        step == host_after_starting(access, state, event),
{
    match state {
        HostState::AcceptingStreams(binding) => match event {
            HostEvent::Applied(accepted) => if accepted {
                match access {
                    RelayAccessMode::Standard => go(
                        HostState::StartingTerminal(binding),
                        HostAction::StartTerminal(binding),
                    ),
                    RelayAccessMode::Enterprise => go(
                        HostState::LocatingAudit(binding),
                        HostAction::LocateAudit,
                    ),
                }
            } else {
                finish(Err(HostError::Session))
            },
            _ => finish(Err(HostError::Session)),
        },
        HostState::LocatingAudit(binding) => match event {
            HostEvent::Located(result) => match result {
                Ok(_) => go(
                    HostState::StartingTerminal(binding),
                    HostAction::StartTerminal(binding),
                ),
                Err(error) => finish(Err(error)),
            },
            _ => finish(Err(HostError::Session)),
        },
        HostState::StartingTerminal(binding) => match event {
            HostEvent::Driven(result) => match result {
                Ok(Ok(_)) => go(
                    HostState::Committing(binding),
                    HostAction::Apply(SessionEvent::TerminalReadyFlushed),
                ),
                Ok(Err(error)) => go(
                    HostState::FailingStart { binding, error, fatal: false },
                    HostAction::Apply(host_error_event(&error, SessionEvent::TerminalStartFailed)),
                ),
                Err(error) => go(
                    HostState::FailingStart { binding, error, fatal: true },
                    HostAction::Apply(host_error_event(&error, SessionEvent::TerminalStartFailed)),
                ),
            },
            _ => finish(Err(HostError::Session)),
        },
        HostState::FailingStart { binding, error, fatal } => match event {
            HostEvent::Applied(accepted) => {
                if !accepted {
                    finish(Err(HostError::Session))
                } else {
                    match error {
                        HostError::Endpoint(endpoint) => settle(binding, endpoint),
                        _ => if fatal {
                            finish(Err(error))
                        } else {
                            restart()
                        },
                    }
                }
            },
            _ => finish(Err(HostError::Session)),
        },
        HostState::Committing(binding) => match event {
            HostEvent::Applied(accepted) => if accepted {
                HostStep {
                    state: HostState::Releasing(binding),
                    stage: Some(HostStage::TerminalActive),
                    action: HostAction::Release(binding),
                }
            } else {
                finish(Err(HostError::Session))
            },
            _ => finish(Err(HostError::Session)),
        },
        _ => finish(Err(HostError::Session)),
    }
}

fn committed(access: RelayAccessMode, state: HostState, event: HostEvent) -> (step: HostStep)
    requires
        host_awaits(state, event),
    ensures
        step == host_after_committed(access, state, event),
{
    match state {
        HostState::Releasing(binding) => match event {
            HostEvent::Released(_) => go(
                HostState::Bridging(binding),
                HostAction::Bridge(binding),
            ),
            _ => finish(Err(HostError::Session)),
        },
        HostState::Bridging(binding) => match event {
            HostEvent::Bridged(outcome) => go(
                HostState::ShuttingDown { binding, outcome },
                HostAction::ShutDown,
            ),
            _ => finish(Err(HostError::Session)),
        },
        HostState::ShuttingDown { binding, outcome } => match event {
            HostEvent::ShutDown(shutdown) => {
                match outcome {
                    Ok(code) => match access {
                        RelayAccessMode::Standard => go(
                            HostState::Exiting { code, shutdown },
                            HostAction::Apply(SessionEvent::ShellExited),
                        ),
                        RelayAccessMode::Enterprise => go(
                            HostState::Finalizing { code, shutdown },
                            HostAction::Finalize {
                                binding,
                                code: #[verifier::truncate]
                                (code as u8),
                            },
                        ),
                    },
                    Err(error) => match (access, error) {
                        (RelayAccessMode::Standard, _) | (_, HostError::Audit(_)) => go(
                            HostState::Losing { error },
                            HostAction::Apply(
                                host_error_event(&error, SessionEvent::ConnectionLost),
                            ),
                        ),
                        _ => go(
                            HostState::ClosingInterrupted { error },
                            HostAction::CloseInterrupted,
                        ),
                    },
                }
            },
            _ => finish(Err(HostError::Session)),
        },
        HostState::Finalizing { code, shutdown } => match event {
            HostEvent::Finalized(result) => match result {
                Ok(Ok(_)) => go(
                    HostState::Exiting { code, shutdown },
                    HostAction::Apply(SessionEvent::ShellExited),
                ),
                Ok(Err(error)) => go(
                    HostState::Losing { error: HostError::Audit(error) },
                    HostAction::Apply(SessionEvent::ConnectionLost),
                ),
                Err(error) => go(
                    HostState::Losing { error: HostError::Endpoint(error) },
                    HostAction::Apply(SessionEvent::ConnectionLost),
                ),
            },
            _ => finish(Err(HostError::Session)),
        },
        HostState::Exiting { code, shutdown } => match event {
            HostEvent::Applied(accepted) => {
                if !accepted {
                    finish(Err(HostError::Session))
                } else {
                    match shutdown {
                        Ok(_) => finish(Ok(code)),
                        Err(error) => finish(Err(HostError::Terminal(error))),
                    }
                }
            },
            _ => finish(Err(HostError::Session)),
        },
        HostState::ClosingInterrupted { error } => match event {
            HostEvent::TailClosed => go(
                HostState::Losing { error },
                HostAction::Apply(host_error_event(&error, SessionEvent::ConnectionLost)),
            ),
            _ => finish(Err(HostError::Session)),
        },
        HostState::Losing { error } => match event {
            HostEvent::Applied(accepted) => if accepted {
                finish(Err(error))
            } else {
                finish(Err(HostError::Session))
            },
            _ => finish(Err(HostError::Session)),
        },
        _ => finish(Err(HostError::Session)),
    }
}

fn transition(access: RelayAccessMode, state: HostState, event: HostEvent) -> (step: HostStep)
    requires
        host_awaits(state, event),
    ensures
        step == host_after(access, state, event),
{
    match state {
        HostState::CheckingLease
        | HostState::Recovering
        | HostState::AwaitingAuth
        | HostState::Quiescing
        | HostState::ReadingHello(_)
        | HostState::CheckingRate(_)
        | HostState::RefusingRate(_)
        | HostState::Settling => waiting(state, event),
        HostState::BeginningAuth(_)
        | HostState::Authenticating(_)
        | HostState::Rejecting
        | HostState::Unbinding { .. }
        | HostState::ConfirmingAuth(_)
        | HostState::AwaitingStreams(_) => authenticating(state, event),
        HostState::AcceptingStreams(_)
        | HostState::LocatingAudit(_)
        | HostState::StartingTerminal(_)
        | HostState::FailingStart { .. }
        | HostState::Committing(_) => starting(access, state, event),
        HostState::Releasing(_)
        | HostState::Bridging(_)
        | HostState::ShuttingDown { .. }
        | HostState::Finalizing { .. }
        | HostState::Exiting { .. }
        | HostState::ClosingInterrupted { .. }
        | HostState::Losing { .. } => committed(access, state, event),
        HostState::Finished => finish(Err(HostError::Session)),
    }
}

// ---------------------------------------------------------------------------
// Laws
// ---------------------------------------------------------------------------

/// The steps that a session takes on some events.
pub open spec fn host_run(
    access: RelayAccessMode,
    state: HostState,
    events: Seq<HostEvent>,
) -> Seq<HostStep>
    decreases events.len(),
{
    if events.len() == 0 {
        seq![]
    } else {
        let step = host_after(access, state, events[0]);
        seq![step] + host_run(access, step.state, events.skip(1))
    }
}

/// Each of the events is one that the session waits for when it comes.
pub open spec fn host_follows(
    access: RelayAccessMode,
    state: HostState,
    events: Seq<HostEvent>,
) -> bool
    decreases events.len(),
{
    events.len() == 0 || host_awaits(state, events[0]) && host_follows(
        access,
        host_after(access, state, events[0]).state,
        events.skip(1),
    )
}

/// How many of the steps commit a terminal.
pub open spec fn commits(steps: Seq<HostStep>) -> nat
    decreases steps.len(),
{
    if steps.len() == 0 {
        0
    } else {
        commits(steps.skip(1)) + if steps[0].action == HostAction::Apply(
            SessionEvent::TerminalReadyFlushed,
        ) {
            1nat
        } else {
            0nat
        }
    }
}

/// The session has committed its terminal or has come to an end.
pub open spec fn past_commit(state: HostState) -> bool {
    state is Committing || state is Releasing || state is Bridging || state is ShuttingDown
        || state is Finalizing || state is Exiting || state is ClosingInterrupted || state is Losing
        || state is Finished
}

/// The session's controller is authenticated.
pub open spec fn controller_authenticated(state: HostState) -> bool {
    state is ConfirmingAuth || state is AwaitingStreams || state is AcceptingStreams
        || state is LocatingAudit || state is StartingTerminal || state is FailingStart
        || state is Committing || state is Releasing || state is Bridging || state is ShuttingDown
        || state is Finalizing || state is Exiting || state is ClosingInterrupted || state is Losing
}

/// The exit code of the shell, as far as the session still holds it.
pub open spec fn exit_code(state: HostState) -> Option<u32> {
    match state {
        HostState::ShuttingDown { outcome: Ok(code), .. } => Some(code),
        HostState::Finalizing { code, .. } => Some(code),
        HostState::Exiting { code, .. } => Some(code),
        _ => None,
    }
}

/// However a run goes, at most one terminal is committed in it.
pub proof fn law_at_most_one_terminal_is_committed(
    access: RelayAccessMode,
    state: HostState,
    events: Seq<HostEvent>,
)
    requires
        host_follows(access, state, events),
    ensures
        commits(host_run(access, state, events)) <= 1,
        past_commit(state) ==> commits(host_run(access, state, events)) == 0,
    decreases events.len(),
{
    if events.len() != 0 {
        let step = host_after(access, state, events[0]);
        let rest = host_run(access, step.state, events.skip(1));
        law_at_most_one_terminal_is_committed(access, step.state, events.skip(1));
        assert(host_run(access, state, events).skip(1) =~= rest);
    }
}

/// Once a terminal is committed the host never waits for a controller again.
pub proof fn law_a_committed_session_never_waits_again(
    access: RelayAccessMode,
    state: HostState,
    event: HostEvent,
)
    requires
        past_commit(state),
        host_awaits(state, event),
    ensures
        past_commit(host_after(access, state, event).state),
        host_after(access, state, event).stage != Some(HostStage::WaitingForController),
{
}

proof fn lemma_authenticated_first(
    access: RelayAccessMode,
    state: HostState,
    events: Seq<HostEvent>,
    at: int,
) -> (succeeded: int)
    requires
        host_follows(access, state, events),
        !controller_authenticated(state),
        0 <= at < events.len(),
        controller_authenticated(host_run(access, state, events)[at].state),
    ensures
        0 <= succeeded <= at,
        host_run(access, state, events)[succeeded].action == HostAction::Apply(
            SessionEvent::AuthenticationSucceeded,
        ),
    decreases events.len(),
{
    let step = host_after(access, state, events[0]);
    lemma_run_len(access, step.state, events.skip(1));
    if controller_authenticated(step.state) {
        0
    } else {
        let rest = lemma_authenticated_first(access, step.state, events.skip(1), at - 1);
        rest + 1
    }
}

proof fn lemma_run_len(access: RelayAccessMode, state: HostState, events: Seq<HostEvent>)
    ensures
        host_run(access, state, events).len() == events.len(),
    decreases events.len(),
{
    if events.len() != 0 {
        lemma_run_len(access, host_after(access, state, events[0]).state, events.skip(1));
    }
}

/// No terminal is started, and none bridged, for a controller that did not
/// authenticate: in a run from the start, such a step comes after one that told
/// the session of a successful authentication.
pub proof fn law_no_terminal_without_authentication(
    access: RelayAccessMode,
    events: Seq<HostEvent>,
    at: int,
)
    requires
        host_follows(access, HostState::CheckingLease, events),
        0 <= at < events.len(),
        ({
            let action = host_run(access, HostState::CheckingLease, events)[at].action;
            action is StartTerminal || action is Release || action is Bridge
        }),
    ensures
        exists|earlier: int|
            0 <= earlier < at && (#[trigger] host_run(
                access,
                HostState::CheckingLease,
                events,
            )[earlier]).action == HostAction::Apply(SessionEvent::AuthenticationSucceeded),
{
    lemma_step_of_run(access, HostState::CheckingLease, events, at);
    let earlier = lemma_authenticated_first(access, HostState::CheckingLease, events, at);
    assert(host_run(access, HostState::CheckingLease, events)[earlier].action == HostAction::Apply(
        SessionEvent::AuthenticationSucceeded,
    ));
}

proof fn lemma_step_of_run(
    access: RelayAccessMode,
    state: HostState,
    events: Seq<HostEvent>,
    at: int,
) -> (before: HostState)
    requires
        host_follows(access, state, events),
        0 <= at < events.len(),
    ensures
        host_awaits(before, events[at]),
        host_run(access, state, events)[at] == host_after(access, before, events[at]),
        at == 0 ==> before == state,
        at > 0 ==> before == host_run(access, state, events)[at - 1].state,
    decreases events.len(),
{
    if at == 0 {
        state
    } else {
        let next = host_after(access, state, events[0]).state;
        lemma_run_len(access, next, events.skip(1));
        let before = lemma_step_of_run(access, next, events.skip(1), at - 1);
        assert(events.skip(1)[at - 1] == events[at]);
        before
    }
}

proof fn lemma_code_came_from_the_bridge(
    access: RelayAccessMode,
    state: HostState,
    events: Seq<HostEvent>,
    at: int,
    code: u32,
) -> (bridged: int)
    requires
        host_follows(access, state, events),
        exit_code(state) is None,
        0 <= at < events.len(),
        exit_code(host_run(access, state, events)[at].state) == Some(code),
    ensures
        0 <= bridged <= at,
        events[bridged] == HostEvent::Bridged(Ok(code)),
    decreases events.len(),
{
    let step = host_after(access, state, events[0]);
    lemma_run_len(access, step.state, events.skip(1));
    if exit_code(step.state) is Some {
        if at > 0 {
            lemma_code_is_kept(access, step.state, events.skip(1), at - 1, code);
        }
        0
    } else {
        let rest = lemma_code_came_from_the_bridge(
            access,
            step.state,
            events.skip(1),
            at - 1,
            code,
        );
        assert(events.skip(1)[rest] == events[rest + 1]);
        rest + 1
    }
}

proof fn lemma_code_is_kept(
    access: RelayAccessMode,
    state: HostState,
    events: Seq<HostEvent>,
    at: int,
    code: u32,
)
    requires
        host_follows(access, state, events),
        past_commit(state),
        !(state is Committing || state is Releasing || state is Bridging),
        0 <= at < events.len(),
        exit_code(host_run(access, state, events)[at].state) == Some(code),
    ensures
        exit_code(state) == Some(code),
    decreases events.len(),
{
    let step = host_after(access, state, events[0]);
    lemma_run_len(access, step.state, events.skip(1));
    if at > 0 {
        lemma_code_is_kept(access, step.state, events.skip(1), at - 1, code);
    }
}

/// The exit code that a session ends with is the one that the bridged terminal
/// reported, and the terminal was cleaned up.
pub proof fn law_the_exit_code_is_that_of_the_shell(
    access: RelayAccessMode,
    events: Seq<HostEvent>,
    at: int,
    code: u32,
)
    requires
        host_follows(access, HostState::CheckingLease, events),
        0 <= at < events.len(),
        host_run(access, HostState::CheckingLease, events)[at].action == HostAction::Finish(
            Ok(code),
        ),
    ensures
        exists|bridged: int|
            0 <= bridged < at && #[trigger] events[bridged] == HostEvent::Bridged(Ok(code)),
        match host_run(access, HostState::CheckingLease, events)[at - 1].state {
            HostState::Exiting { code: held, shutdown } => held == code && shutdown is Ok,
            _ => false,
        },
{
    let before = lemma_step_of_run(access, HostState::CheckingLease, events, at);
    assert(before is Exiting);
    assert(at > 0);
    let bridged = lemma_code_came_from_the_bridge(
        access,
        HostState::CheckingLease,
        events,
        at - 1,
        code,
    );
    assert(events[bridged] == HostEvent::Bridged(Ok(code)));
}

/// A failed finalization of the audit is never hidden behind the shell's exit
/// code: the session ends with that code exactly when the finalization, the
/// session and the cleanup all succeeded.
pub proof fn law_finalization_is_never_hidden(
    access: RelayAccessMode,
    code: u32,
    shutdown: Result<(), TerminalError>,
    finalized: Result<Result<(), AuditError>, EndpointError>,
    accepted: bool,
)
    ensures
        ({
            let told = host_after(
                access,
                (HostState::Finalizing { code, shutdown }),
                HostEvent::Finalized(finalized),
            );
            let end = host_after(access, told.state, HostEvent::Applied(accepted));
            &&& end.action is Finish
            &&& end.action->Finish_0 is Ok <==> finalized is Ok && finalized->Ok_0 is Ok
                && accepted && shutdown is Ok
            &&& end.action->Finish_0 is Ok ==> end.action->Finish_0->Ok_0 == code
        }),
{
}

/// An audited session ends with an exit code only by way of a successful
/// finalization.
pub proof fn law_an_audited_exit_is_finalized(state: HostState, event: HostEvent)
    requires
        host_awaits(state, event),
        host_after(RelayAccessMode::Enterprise, state, event).state is Exiting,
    ensures
        state is Finalizing,
        event is Finalized && event->Finalized_0 is Ok && event->Finalized_0->Ok_0 is Ok,
{
}

/// A controller that fails to authenticate leaves the host waiting for the next
/// one.
pub proof fn law_a_rejected_controller_leaves_the_host_waiting(
    access: RelayAccessMode,
    binding: ConnectionBinding,
    error: HostError,
)
    ensures
        ({
            let told = host_after(
                access,
                HostState::Authenticating(binding),
                HostEvent::Driven(Ok(Err(error))),
            );
            &&& told.action == HostAction::Apply(SessionEvent::AuthenticationFailed)
            &&& host_after(access, told.state, HostEvent::Applied(true)) == host_restart()
        }),
{
}

/// A controller that does everything right is led to its terminal: its connections
/// settle, its hello is read and admitted, it authenticates, is acknowledged, opens its
/// streams and gets its terminal, all under the one binding that it settled on.
pub proof fn law_a_controller_is_led_to_its_terminal(
    access: RelayAccessMode,
    controller: PeerId,
    binding: ConnectionBinding,
    released: Result<(), RelayProtocolError>,
)
    ensures
        ({
            let after = |state: HostState, event: HostEvent| host_after(access, state, event);
            let done = HostEvent::Driven(Ok(Ok(())));
            let accepted = HostEvent::Applied(true);
            &&& after(HostState::CheckingLease, HostEvent::Lease(true)) == (HostStep {
                state: HostState::AwaitingAuth,
                stage: None,
                action: HostAction::AwaitAuth,
            })
            &&& after(HostState::AwaitingAuth, HostEvent::Auth(Ok(Some(controller)))) == (HostStep {
                state: HostState::Quiescing,
                stage: Some(HostStage::AuthenticatingController),
                action: HostAction::AwaitQuiescence(controller),
            })
            &&& after(HostState::Quiescing, HostEvent::Quiescent(Ok(binding))) == (HostStep {
                state: HostState::ReadingHello(binding),
                stage: None,
                action: HostAction::ReadHello(binding),
            })
            &&& after(HostState::ReadingHello(binding), done) == (HostStep {
                state: HostState::CheckingRate(binding),
                stage: None,
                action: HostAction::CheckRate,
            })
            &&& after(HostState::CheckingRate(binding), HostEvent::Rate(true)) == (HostStep {
                state: HostState::BeginningAuth(binding),
                stage: None,
                action: HostAction::Apply(SessionEvent::BeginAuthentication),
            })
            &&& after(HostState::BeginningAuth(binding), accepted) == (HostStep {
                state: HostState::Authenticating(binding),
                stage: None,
                action: HostAction::Authenticate(binding),
            })
            &&& after(HostState::Authenticating(binding), done) == (HostStep {
                state: HostState::ConfirmingAuth(binding),
                stage: Some(HostStage::StartingTerminal),
                action: HostAction::Apply(SessionEvent::AuthenticationSucceeded),
            })
            &&& after(HostState::ConfirmingAuth(binding), accepted) == (HostStep {
                state: HostState::AwaitingStreams(binding),
                stage: None,
                action: HostAction::AwaitStreams(binding),
            })
            &&& after(HostState::AwaitingStreams(binding), HostEvent::Streams(Ok(()))) == (
            HostStep {
                state: HostState::AcceptingStreams(binding),
                stage: None,
                action: HostAction::Apply(SessionEvent::TerminalStreamsReady),
            })
            &&& access == RelayAccessMode::Standard ==> after(
                HostState::AcceptingStreams(binding),
                accepted,
            ) == (HostStep {
                state: HostState::StartingTerminal(binding),
                stage: None,
                action: HostAction::StartTerminal(binding),
            })
            &&& access == RelayAccessMode::Enterprise ==> after(
                HostState::AcceptingStreams(binding),
                accepted,
            ) == (HostStep {
                state: HostState::LocatingAudit(binding),
                stage: None,
                action: HostAction::LocateAudit,
            })
            &&& after(HostState::LocatingAudit(binding), HostEvent::Located(Ok(()))) == (HostStep {
                state: HostState::StartingTerminal(binding),
                stage: None,
                action: HostAction::StartTerminal(binding),
            })
            &&& after(HostState::StartingTerminal(binding), done) == (HostStep {
                state: HostState::Committing(binding),
                stage: None,
                action: HostAction::Apply(SessionEvent::TerminalReadyFlushed),
            })
            &&& after(HostState::Committing(binding), accepted) == (HostStep {
                state: HostState::Releasing(binding),
                stage: Some(HostStage::TerminalActive),
                action: HostAction::Release(binding),
            })
            &&& after(HostState::Releasing(binding), HostEvent::Released(released)) == (HostStep {
                state: HostState::Bridging(binding),
                stage: None,
                action: HostAction::Bridge(binding),
            })
        }),
{
}

/// The terminal's end is carried to the session's end: it is cleaned up, an audit is
/// finalized with the low byte of the shell's code, the session is told, and the code is
/// the result, unless the cleanup failed.
pub proof fn law_an_exit_is_carried_to_the_end(
    binding: ConnectionBinding,
    code: u32,
    outcome: Result<u32, HostError>,
    shutdown: Result<(), TerminalError>,
)
    ensures
        ({
            let standard = RelayAccessMode::Standard;
            let enterprise = RelayAccessMode::Enterprise;
            let ended = HostState::ShuttingDown { binding, outcome: Ok(code) };
            &&& forall|access: RelayAccessMode| #[trigger]
                host_after(access, HostState::Bridging(binding), HostEvent::Bridged(outcome)) == (
                HostStep {
                    state: HostState::ShuttingDown { binding, outcome },
                    stage: None,
                    action: HostAction::ShutDown,
                })
            &&& host_after(standard, ended, HostEvent::ShutDown(shutdown)) == (HostStep {
                state: HostState::Exiting { code, shutdown },
                stage: None,
                action: HostAction::Apply(SessionEvent::ShellExited),
            })
            &&& host_after(enterprise, ended, HostEvent::ShutDown(shutdown)) == (HostStep {
                state: HostState::Finalizing { code, shutdown },
                stage: None,
                action: HostAction::Finalize { binding, code: (code % 256) as u8 },
            })
            &&& forall|access: RelayAccessMode| #[trigger]
                host_after(
                    access,
                    (HostState::Finalizing { code, shutdown }),
                    HostEvent::Finalized(Ok(Ok(()))),
                ) == (HostStep {
                    state: HostState::Exiting { code, shutdown },
                    stage: None,
                    action: HostAction::Apply(SessionEvent::ShellExited),
                })
            &&& forall|access: RelayAccessMode| #[trigger]
                host_after(
                    access,
                    (HostState::Exiting { code, shutdown }),
                    HostEvent::Applied(true),
                ).action == HostAction::Finish(
                    match shutdown {
                        Ok(_) => Ok(code),
                        Err(error) => Err(HostError::Terminal(error)),
                    },
                )
        }),
{
    assert(code as u8 == (code % 256) as u8) by (bit_vector);
}

/// Before a terminal is committed, the failures of a controller leave the host waiting
/// for the next one, who is told of at once: connections that do not settle, a hello that
/// is none, too many attempts, a relay that has to be renewed, streams that do not come,
/// and a terminal that does not start.
pub proof fn law_a_failed_controller_leaves_the_host_waiting(
    access: RelayAccessMode,
    binding: ConnectionBinding,
    error: HostError,
    refused: Result<(), HostError>,
)
    ensures
        ({
            let after = |state: HostState, event: HostEvent| host_after(access, state, event);
            let waiting = HostStep {
                state: HostState::CheckingLease,
                stage: Some(HostStage::WaitingForController),
                action: HostAction::CheckLease,
            };
            &&& host_restart() == waiting
            &&& after(HostState::AwaitingAuth, HostEvent::Auth(Ok(None))) == waiting
            &&& after(HostState::Quiescing, HostEvent::Quiescent(Err(error))) == waiting
            &&& after(HostState::ReadingHello(binding), HostEvent::Driven(Ok(Err(error))))
                == waiting
            &&& after(HostState::CheckingRate(binding), HostEvent::Rate(false)) == (HostStep {
                state: HostState::RefusingRate(binding),
                stage: None,
                action: HostAction::SendRetry(binding),
            })
            &&& after(HostState::RefusingRate(binding), HostEvent::Driven(Ok(refused))) == waiting
            &&& after(HostState::Rejecting, HostEvent::Applied(true)) == waiting
            &&& after(HostState::Settling, HostEvent::PeerClosed(Ok(()))) == waiting
            &&& !(error is Endpoint) ==> after(
                HostState::AwaitingStreams(binding),
                HostEvent::Streams(Err(error)),
            ) == (HostStep {
                state: HostState::Rejecting,
                stage: None,
                action: HostAction::Apply(SessionEvent::ConnectionLost),
            })
            &&& !(error is Endpoint) ==> after(
                HostState::StartingTerminal(binding),
                HostEvent::Driven(Ok(Err(error))),
            ) == (HostStep {
                state: HostState::FailingStart { binding, error, fatal: false },
                stage: None,
                action: HostAction::Apply(SessionEvent::TerminalStartFailed),
            })
            &&& !(error is Endpoint) ==> after(
                (HostState::FailingStart { binding, error, fatal: false }),
                HostEvent::Applied(true),
            ) == waiting
            &&& after(HostState::CheckingLease, HostEvent::Lease(false)) == (HostStep {
                state: HostState::Recovering,
                stage: None,
                action: HostAction::Recover,
            })
            &&& after(HostState::Recovering, HostEvent::Recovered(Ok(()))) == (HostStep {
                state: HostState::AwaitingAuth,
                stage: Some(HostStage::WaitingForController),
                action: HostAction::AwaitAuth,
            })
        }),
{
}

/// A binding that broke before a terminal is committed leaves the host waiting too. Where
/// an additional connection broke it, every connection of that peer is closed first; and
/// once the authentication has begun the session is told what happened.
pub proof fn law_a_broken_binding_leaves_the_host_waiting(
    access: RelayAccessMode,
    binding: ConnectionBinding,
    error: EndpointError,
    fatal: bool,
)
    ensures
        ({
            let after = |state: HostState, event: HostEvent| host_after(access, state, event);
            let broken = HostEvent::Driven(Err(HostError::Endpoint(error)));
            let event = if error == EndpointError::AdditionalBoundConnection {
                SessionEvent::ExtraConnection
            } else {
                SessionEvent::ConnectionLost
            };
            let settled = if error == EndpointError::AdditionalBoundConnection {
                HostStep {
                    state: HostState::Settling,
                    stage: None,
                    action: HostAction::ClosePeer(binding.peer),
                }
            } else {
                HostStep {
                    state: HostState::CheckingLease,
                    stage: Some(HostStage::WaitingForController),
                    action: HostAction::CheckLease,
                }
            };
            let told = HostStep {
                state: HostState::Unbinding { binding, error },
                stage: None,
                action: HostAction::Apply(event),
            };
            &&& after(HostState::ReadingHello(binding), broken) == settled
            &&& after(HostState::RefusingRate(binding), broken) == settled
            &&& after(HostState::Authenticating(binding), broken) == told
            &&& after(
                HostState::AwaitingStreams(binding),
                HostEvent::Streams(Err(HostError::Endpoint(error))),
            ) == told
            &&& after((HostState::Unbinding { binding, error }), HostEvent::Applied(true))
                == settled
            &&& after(HostState::StartingTerminal(binding), broken) == (HostStep {
                state: HostState::FailingStart {
                    binding,
                    error: HostError::Endpoint(error),
                    fatal: true,
                },
                stage: None,
                action: HostAction::Apply(event),
            })
            &&& after(
                HostState::StartingTerminal(binding),
                HostEvent::Driven(Ok(Err(HostError::Endpoint(error)))),
            ) == (HostStep {
                state: HostState::FailingStart {
                    binding,
                    error: HostError::Endpoint(error),
                    fatal: false,
                },
                stage: None,
                action: HostAction::Apply(event),
            })
            &&& after(
                (HostState::FailingStart { binding, error: HostError::Endpoint(error), fatal }),
                HostEvent::Applied(true),
            ) == settled
        }),
{
}

/// What ends the host before a terminal is committed, and is passed on: a failure of the
/// session's own inputs other than that of a binding, a relay that cannot be reached, an
/// audit without a directory, and connections that cannot be closed.
pub proof fn law_what_ends_the_host_before_a_terminal(
    access: RelayAccessMode,
    binding: ConnectionBinding,
    error: HostError,
    endpoint: EndpointError,
)
    ensures
        ({
            let after = |state: HostState, event: HostEvent| host_after(access, state, event);
            let ended = HostStep {
                state: HostState::Finished,
                stage: None,
                action: HostAction::Finish(Err(error)),
            };
            let failed = HostEvent::Driven(Err(error));
            &&& after(HostState::Recovering, HostEvent::Recovered(Err(error))) == ended
            &&& after(HostState::AwaitingAuth, HostEvent::Auth(Err(error))) == ended
            &&& after(HostState::LocatingAudit(binding), HostEvent::Located(Err(error))) == ended
            &&& !(error is Endpoint) ==> {
                &&& after(HostState::ReadingHello(binding), failed) == ended
                &&& after(HostState::RefusingRate(binding), failed) == ended
                &&& after(HostState::Authenticating(binding), failed) == ended
                &&& after(HostState::StartingTerminal(binding), failed) == (HostStep {
                    state: HostState::FailingStart { binding, error, fatal: true },
                    stage: None,
                    action: HostAction::Apply(SessionEvent::TerminalStartFailed),
                })
                &&& after(
                    (HostState::FailingStart { binding, error, fatal: true }),
                    HostEvent::Applied(true),
                ) == ended
            }
            &&& after(HostState::Settling, HostEvent::PeerClosed(Err(endpoint))).action
                == HostAction::Finish(Err(HostError::Endpoint(endpoint)))
        }),
{
}

/// A session that does not accept what it is told ends the host, whatever it was told.
pub proof fn law_a_session_that_does_not_accept_ends_the_host(
    access: RelayAccessMode,
    state: HostState,
)
    requires
        host_awaits(state, HostEvent::Applied(false)),
    ensures
        host_after(access, state, HostEvent::Applied(false)) == (HostStep {
            state: HostState::Finished,
            stage: None,
            action: HostAction::Finish(Err(HostError::Session)),
        }),
{
}

/// A terminal that ended with a failure ends the session with that failure. An audit that
/// did not fail itself is closed first, and the session is told: of the binding, if that
/// broke, and of a lost connection otherwise.
pub proof fn law_a_lost_terminal_ends_the_session(
    access: RelayAccessMode,
    binding: ConnectionBinding,
    error: HostError,
    shutdown: Result<(), TerminalError>,
    code: u32,
    audit: AuditError,
    endpoint: EndpointError,
)
    ensures
        ({
            let after = |state: HostState, event: HostEvent| host_after(access, state, event);
            let event = if error == HostError::Endpoint(EndpointError::AdditionalBoundConnection) {
                SessionEvent::ExtraConnection
            } else {
                SessionEvent::ConnectionLost
            };
            let losing = HostStep {
                state: HostState::Losing { error },
                stage: None,
                action: HostAction::Apply(event),
            };
            let down = after(
                (HostState::ShuttingDown { binding, outcome: Err(error) }),
                HostEvent::ShutDown(shutdown),
            );
            &&& access == RelayAccessMode::Standard || error is Audit ==> down == losing
            &&& access == RelayAccessMode::Enterprise && !(error is Audit) ==> down == (HostStep {
                state: HostState::ClosingInterrupted { error },
                stage: None,
                action: HostAction::CloseInterrupted,
            })
            &&& after((HostState::ClosingInterrupted { error }), HostEvent::TailClosed) == losing
            &&& after((HostState::Losing { error }), HostEvent::Applied(true)).action
                == HostAction::Finish(Err(error))
            &&& after(
                (HostState::Finalizing { code, shutdown }),
                HostEvent::Finalized(Ok(Err(audit))),
            ) == (HostStep {
                state: HostState::Losing { error: HostError::Audit(audit) },
                stage: None,
                action: HostAction::Apply(SessionEvent::ConnectionLost),
            })
            &&& after(
                (HostState::Finalizing { code, shutdown }),
                HostEvent::Finalized(Err(endpoint)),
            ) == (HostStep {
                state: HostState::Losing { error: HostError::Endpoint(endpoint) },
                stage: None,
                action: HostAction::Apply(SessionEvent::ConnectionLost),
            })
        }),
{
}

/// The session has come to an end exactly when it says what it ended with.
pub proof fn law_a_session_ends_with_a_result(
    access: RelayAccessMode,
    state: HostState,
    event: HostEvent,
)
    requires
        host_awaits(state, event),
    ensures
        host_after(access, state, event).state is Finished <==> host_after(
            access,
            state,
            event,
        ).action is Finish,
{
}

} // verus!
