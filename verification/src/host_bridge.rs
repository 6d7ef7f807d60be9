//! The bridge between an active terminal and its controller: what ends it, and
//! how the audit of the session is served meanwhile.

use crate::failure::AuditError;
use crate::host::HostError;
use crate::host_inputs::{drive_session_inputs, reject_extra_auth, InputVerdict, SessionWake};
use crate::network::{ConnectionBinding, ConnectionId, EndpointDriver, EndpointError, PeerId};
use vstd::prelude::*;

verus! {

/// Why a side closes the audit of a session.
#[derive(Debug, Clone, Copy, PartialEq, Eq, Structural)]
pub enum AuditCloseReason {
    /// Its own audit failed.
    AuditFailure,
    ConnectionLost,
    /// Any other reason, by its wire code.
    Other(u8),
}

/// What a frame of the audit came to.
#[derive(Debug, Clone, Copy, PartialEq, Eq, Structural)]
pub enum FrameEvent {
    /// Nothing that concerns the bridge.
    Nothing,
    /// The controller closes the audit.
    Close(AuditCloseReason),
    /// The controller reports a failure of its audit, by its wire code.
    PeerAuditError(u8),
}

/// What the bridge waits for.
#[derive(Debug, Clone, Copy, PartialEq, Eq, Structural)]
pub enum BridgePhase {
    /// Any input.
    Watching,
    /// Another controller to be put off.
    Refusing,
    /// A file stream to be queued.
    Offering,
    /// A due checkpoint to be sent.
    Checkpointing,
    /// A frame of the audit to be handled.
    Handling,
    /// The audit to be failed closed.
    FailingClosed,
    /// The audit to be finalized.
    Finalizing,
    Finished,
}

/// What happened to the bridge.
#[derive(Debug, Clone, Copy, PartialEq, Eq)]
pub enum BridgeEvent {
    /// An event of the endpoint, a stream or a signal.
    Input(SessionWake),
    /// The answer to another controller; `None` when it timed out.
    Refused(Option<Result<Result<(), HostError>, EndpointError>>),
    Offered,
    /// It is time to look for a due checkpoint.
    Poll,
    /// A frame of the audit came; `false` when the audit stream ended.
    Frame(Result<bool, AuditError>),
    /// The controller's input failed.
    InputFailed(HostError),
    /// The terminal's output ended, with the exit code.
    Output(Result<u32, HostError>),
    /// The file coordinator ended.
    CoordinatorEnded,
    /// The outer failure is that of the binding, in these three.
    Checkpointed(Result<Result<(), AuditError>, EndpointError>),
    Handled(Result<Result<FrameEvent, AuditError>, EndpointError>),
    Finalized(Result<Result<(), AuditError>, EndpointError>),
    FailedClosed,
}

/// What the bridge wants done.
#[derive(Debug, Clone, Copy, PartialEq, Eq)]
pub enum BridgeAction {
    Watch,
    Refuse(PeerId),
    /// Queue the file stream; it is dropped when the queue is full.
    OfferFile,
    SendCheckpoint,
    HandleFrame,
    FailClosed { code: Option<u8>, reason: AuditCloseReason },
    /// Finalize the audit with the reason that was received.
    Finalize(AuditCloseReason),
    Finish(Result<u32, HostError>),
}

/// What follows an event: whether file transfers are cancelled first, and what to
/// do.
#[derive(Debug, Clone, Copy, PartialEq, Eq)]
pub struct BridgeStep {
    pub phase: BridgePhase,
    pub cancel: bool,
    pub action: BridgeAction,
}

/// The event is one that can happen in the phase; those of an audit only in an
/// audited session.
pub open spec fn bridge_awaits(audited: bool, phase: BridgePhase, event: BridgeEvent) -> bool {
    match phase {
        BridgePhase::Watching => match event {
            BridgeEvent::Input(wake) => !(wake is Done) && !(wake is Deadline),
            BridgeEvent::InputFailed(_)
            | BridgeEvent::Output(_)
            | BridgeEvent::CoordinatorEnded => true,
            BridgeEvent::Poll | BridgeEvent::Frame(_) => audited,
            _ => false,
        },
        BridgePhase::Refusing => event is Refused,
        BridgePhase::Offering => event is Offered,
        BridgePhase::Checkpointing => event is Checkpointed,
        BridgePhase::Handling => event is Handled,
        BridgePhase::FailingClosed => event is FailedClosed,
        BridgePhase::Finalizing => event is Finalized,
        BridgePhase::Finished => false,
    }
}

/// Goes on with an action.
pub open spec fn bridge_go(phase: BridgePhase, cancel: bool, action: BridgeAction) -> BridgeStep {
    BridgeStep { phase, cancel, action }
}

/// The bridge has come to an end.
pub open spec fn bridge_end(cancel: bool, result: Result<u32, HostError>) -> BridgeStep {
    bridge_go(BridgePhase::Finished, cancel, BridgeAction::Finish(result))
}

/// Watches again, if the binding still holds.
pub open spec fn bridge_resume(driver: EndpointDriver, binding: ConnectionBinding) -> BridgeStep {
    match crate::host_inputs::binding_verdict(driver, binding) {
        Ok(_) => bridge_go(BridgePhase::Watching, false, BridgeAction::Watch),
        Err(error) => bridge_end(false, Err(HostError::Endpoint(error))),
    }
}

/// What follows an input.
pub open spec fn bridge_input(
    driver: EndpointDriver,
    binding: ConnectionBinding,
    wake: SessionWake,
) -> BridgeStep {
    match crate::host_inputs::input_verdict(driver, binding, true, wake) {
        InputVerdict::Wait => bridge_resume(driver, binding),
        InputVerdict::Refuse(peer) => bridge_go(
            BridgePhase::Refusing,
            false,
            BridgeAction::Refuse(peer),
        ),
        InputVerdict::OfferFile => bridge_go(BridgePhase::Offering, false, BridgeAction::OfferFile),
        InputVerdict::Finish(Err(error)) => bridge_end(wake is Signal, Err(error)),
        InputVerdict::Finish(Ok(_)) => bridge_resume(driver, binding),
    }
}

/// What follows a handled frame of the audit: a failure of the controller's audit
/// fails the session closed, another close is finalized with the reason received.
pub open spec fn bridge_handled(
    driver: EndpointDriver,
    binding: ConnectionBinding,
    event: FrameEvent,
) -> BridgeStep {
    match event {
        FrameEvent::Nothing => bridge_resume(driver, binding),
        FrameEvent::Close(AuditCloseReason::AuditFailure) => bridge_go(
            BridgePhase::FailingClosed,
            true,
            BridgeAction::FailClosed { code: None, reason: AuditCloseReason::AuditFailure },
        ),
        FrameEvent::Close(reason) => bridge_go(
            BridgePhase::Finalizing,
            true,
            BridgeAction::Finalize(reason),
        ),
        FrameEvent::PeerAuditError(code) => bridge_go(
            BridgePhase::FailingClosed,
            true,
            BridgeAction::FailClosed { code: Some(code), reason: AuditCloseReason::AuditFailure },
        ),
    }
}

/// What follows an event of the bridge.
pub open spec fn bridge_after(
    driver: EndpointDriver,
    binding: ConnectionBinding,
    event: BridgeEvent,
) -> BridgeStep {
    match event {
        BridgeEvent::Input(wake) => bridge_input(driver, binding, wake),
        BridgeEvent::Refused(Some(Err(error))) => bridge_end(
            false,
            Err(HostError::Endpoint(error)),
        ),
        BridgeEvent::Refused(_) | BridgeEvent::Offered => bridge_resume(driver, binding),
        BridgeEvent::Poll => bridge_go(
            BridgePhase::Checkpointing,
            false,
            BridgeAction::SendCheckpoint,
        ),
        BridgeEvent::Frame(Ok(true)) => bridge_go(
            BridgePhase::Handling,
            false,
            BridgeAction::HandleFrame,
        ),
        BridgeEvent::Frame(Ok(false)) => bridge_end(
            true,
            Err(HostError::Audit(AuditError::FailedClosed)),
        ),
        BridgeEvent::Frame(Err(error)) => bridge_end(true, Err(HostError::Audit(error))),
        BridgeEvent::InputFailed(error) => bridge_end(true, Err(error)),
        BridgeEvent::Output(result) => bridge_end(true, result),
        BridgeEvent::CoordinatorEnded => bridge_end(
            false,
            Err(HostError::ProtocolRegistrationEnded),
        ),
        BridgeEvent::Checkpointed(Ok(Ok(_))) => bridge_resume(driver, binding),
        BridgeEvent::Checkpointed(Ok(Err(error))) => bridge_end(true, Err(HostError::Audit(error))),
        BridgeEvent::Checkpointed(Err(error)) => bridge_end(true, Err(HostError::Endpoint(error))),
        BridgeEvent::Handled(Ok(Ok(frame))) => bridge_handled(driver, binding, frame),
        BridgeEvent::Handled(Ok(Err(error))) => bridge_end(true, Err(HostError::Audit(error))),
        BridgeEvent::Handled(Err(error)) => bridge_end(true, Err(HostError::Endpoint(error))),
        BridgeEvent::Finalized(Ok(Ok(_))) => bridge_end(false, Err(HostError::ConnectionLost)),
        BridgeEvent::Finalized(Ok(Err(error))) => bridge_end(false, Err(HostError::Audit(error))),
        BridgeEvent::Finalized(Err(error)) => bridge_end(false, Err(HostError::Endpoint(error))),
        BridgeEvent::FailedClosed => bridge_end(
            false,
            Err(HostError::Audit(AuditError::FailedClosed)),
        ),
    }
}

/// The connections that are closed on account of a step: all of the controller's
/// when the step ends the bridge because an additional one came.
pub open spec fn bridge_closes(
    driver: EndpointDriver,
    binding: ConnectionBinding,
    event: BridgeEvent,
) -> Seq<ConnectionId> {
    let judged = match event {
        BridgeEvent::Input(wake) => match crate::host_inputs::input_verdict(
            driver,
            binding,
            true,
            wake,
        ) {
            InputVerdict::Refuse(_) | InputVerdict::OfferFile => false,
            _ => wake is Node || wake is Stream && wake->from is Some,
        },
        BridgeEvent::Refused(Some(Err(_))) => false,
        BridgeEvent::Refused(_) | BridgeEvent::Offered => true,
        BridgeEvent::Checkpointed(Ok(Ok(_))) => true,
        BridgeEvent::Handled(Ok(Ok(FrameEvent::Nothing))) => true,
        _ => false,
    };
    if judged {
        crate::host_inputs::closed_on_check(driver, binding)
    } else {
        Seq::empty()
    }
}

fn go(phase: BridgePhase, cancel: bool, action: BridgeAction) -> (step: BridgeStep)
    ensures
        step == bridge_go(phase, cancel, action),
{
    BridgeStep { phase, cancel, action }
}

fn end(cancel: bool, result: Result<u32, HostError>) -> (step: BridgeStep)
    ensures
        step == bridge_end(cancel, result),
{
    go(BridgePhase::Finished, cancel, BridgeAction::Finish(result))
}

fn resume(driver: &EndpointDriver, binding: ConnectionBinding) -> (next: (
    BridgeStep,
    Vec<ConnectionId>,
))
    ensures
        next.0 == bridge_resume(*driver, binding),
        next.1@ == crate::host_inputs::closed_on_check(*driver, binding),
{
    let enforced = driver.enforce_binding(binding);
    let step = match enforced.result {
        Ok(()) => go(BridgePhase::Watching, false, BridgeAction::Watch),
        Err(error) => end(false, Err(HostError::Endpoint(error))),
    };
    (step, enforced.close)
}

fn take_input(driver: &EndpointDriver, binding: ConnectionBinding, wake: SessionWake) -> (next: (
    BridgeStep,
    Vec<ConnectionId>,
))
    requires
        !(wake is Done) && !(wake is Deadline),
    ensures
        next.0 == bridge_input(*driver, binding, wake),
        next.1@ == bridge_closes(*driver, binding, BridgeEvent::Input(wake)),
{
    let signal = matches!(wake, SessionWake::Signal(_));
    let plan = drive_session_inputs(driver, binding, true, wake);
    match plan.verdict {
        InputVerdict::Wait | InputVerdict::Finish(Ok(())) => resume(driver, binding),
        InputVerdict::Refuse(peer) => (
            go(BridgePhase::Refusing, false, BridgeAction::Refuse(peer)),
            plan.close,
        ),
        InputVerdict::OfferFile => (
            go(BridgePhase::Offering, false, BridgeAction::OfferFile),
            plan.close,
        ),
        InputVerdict::Finish(Err(error)) => (end(signal, Err(error)), plan.close),
    }
}

fn handled(driver: &EndpointDriver, binding: ConnectionBinding, event: FrameEvent) -> (next: (
    BridgeStep,
    Vec<ConnectionId>,
))
    ensures
        next.0 == bridge_handled(*driver, binding, event),
        next.1@ == bridge_closes(*driver, binding, BridgeEvent::Handled(Ok(Ok(event)))),
{
    match event {
        FrameEvent::Nothing => resume(driver, binding),
        FrameEvent::Close(AuditCloseReason::AuditFailure) => (
            go(
                BridgePhase::FailingClosed,
                true,
                BridgeAction::FailClosed { code: None, reason: AuditCloseReason::AuditFailure },
            ),
            Vec::new(),
        ),
        FrameEvent::Close(reason) => (
            go(BridgePhase::Finalizing, true, BridgeAction::Finalize(reason)),
            Vec::new(),
        ),
        FrameEvent::PeerAuditError(code) => (
            go(
                BridgePhase::FailingClosed,
                true,
                BridgeAction::FailClosed {
                    code: Some(code),
                    reason: AuditCloseReason::AuditFailure,
                },
            ),
            Vec::new(),
        ),
    }
}

/// The bridge of one terminal.
pub struct Bridge {
    binding: ConnectionBinding,
    audited: bool,
    phase: BridgePhase,
}

impl Bridge {
    /// The controller's connection.
    pub closed spec fn bound(self) -> ConnectionBinding {
        self.binding
    }

    /// The session is audited.
    pub closed spec fn is_audited(self) -> bool {
        self.audited
    }

    /// What the bridge waits for.
    pub closed spec fn at(self) -> BridgePhase {
        self.phase
    }

    /// Begins to watch, if the binding holds.
    pub fn new(driver: &EndpointDriver, binding: ConnectionBinding, audited: bool) -> (begun: (
        Self,
        BridgeStep,
        Vec<ConnectionId>,
    ))
        ensures
            begun.0.bound() == binding,
            begun.0.is_audited() == audited,
            begun.0.at() == begun.1.phase,
            begun.1 == bridge_resume(*driver, binding),
            begun.2@ == crate::host_inputs::closed_on_check(*driver, binding),
    {
        let (step, close) = resume(driver, binding);
        (Bridge { binding, audited, phase: step.phase }, step, close)
    }

    /// Takes an event into account and says what to do next, and which connections
    /// to close.
    pub fn advance(&mut self, driver: &EndpointDriver, event: BridgeEvent) -> (next: (
        BridgeStep,
        Vec<ConnectionId>,
    ))
        requires
            bridge_awaits(old(self).is_audited(), old(self).at(), event),
        ensures
            next.0 == bridge_after(*driver, old(self).bound(), event),
            next.1@ == bridge_closes(*driver, old(self).bound(), event),
            final(self).at() == next.0.phase,
            final(self).bound() == old(self).bound(),
            final(self).is_audited() == old(self).is_audited(),
    {
        let next = bridge_terminal(driver, self.binding, event);
        self.phase = next.0.phase;
        next
    }
}

fn bridge_terminal(driver: &EndpointDriver, binding: ConnectionBinding, event: BridgeEvent) -> (
    next: (BridgeStep, Vec<ConnectionId>))
    requires
        event is Input ==> !(event->Input_0 is Done) && !(event->Input_0 is Deadline),
    ensures
        next.0 == bridge_after(*driver, binding, event),
        next.1@ == bridge_closes(*driver, binding, event),
{
    let step = match event {
        BridgeEvent::Input(wake) => {
            return take_input(driver, binding, wake);
        },
        BridgeEvent::Refused(sent) => match reject_extra_auth(sent) {
            Ok(()) => {
                return resume(driver, binding);
            },
            Err(error) => end(false, Err(error)),
        },
        BridgeEvent::Offered => {
            return resume(driver, binding);
        },
        BridgeEvent::Poll => go(BridgePhase::Checkpointing, false, BridgeAction::SendCheckpoint),
        BridgeEvent::Frame(Ok(true)) => go(BridgePhase::Handling, false, BridgeAction::HandleFrame),
        BridgeEvent::Frame(Ok(false)) => end(
            true,
            Err(HostError::Audit(AuditError::FailedClosed)),
        ),
        BridgeEvent::Frame(Err(error)) => end(true, Err(HostError::Audit(error))),
        BridgeEvent::InputFailed(error) => end(true, Err(error)),
        BridgeEvent::Output(result) => end(true, result),
        BridgeEvent::CoordinatorEnded => end(false, Err(HostError::ProtocolRegistrationEnded)),
        BridgeEvent::Checkpointed(Ok(Ok(()))) => {
            return resume(driver, binding);
        },
        BridgeEvent::Checkpointed(Ok(Err(error))) => end(true, Err(HostError::Audit(error))),
        BridgeEvent::Checkpointed(Err(error)) => end(true, Err(HostError::Endpoint(error))),
        BridgeEvent::Handled(Ok(Ok(frame))) => {
            return handled(driver, binding, frame);
        },
        BridgeEvent::Handled(Ok(Err(error))) => end(true, Err(HostError::Audit(error))),
        BridgeEvent::Handled(Err(error)) => end(true, Err(HostError::Endpoint(error))),
        BridgeEvent::Finalized(Ok(Ok(()))) => end(false, Err(HostError::ConnectionLost)),
        BridgeEvent::Finalized(Ok(Err(error))) => end(false, Err(HostError::Audit(error))),
        BridgeEvent::Finalized(Err(error)) => end(false, Err(HostError::Endpoint(error))),
        BridgeEvent::FailedClosed => end(false, Err(HostError::Audit(AuditError::FailedClosed))),
    };
    (step, Vec::new())
}

// ---------------------------------------------------------------------------
// Laws
// ---------------------------------------------------------------------------

/// The bridge ends with an exit code only when the terminal's output ended with
/// that code.
pub proof fn law_only_the_output_gives_the_exit_code(
    driver: EndpointDriver,
    binding: ConnectionBinding,
    event: BridgeEvent,
    code: u32,
)
    requires
        bridge_after(driver, binding, event).action == BridgeAction::Finish(Ok(code)),
    ensures
        event == BridgeEvent::Output(Ok(code)),
{
}

/// Whatever the controller sends to close the audit, the bridge ends without an
/// exit code, and file transfers are cancelled first.
pub proof fn law_a_close_of_the_audit_ends_the_bridge(
    driver: EndpointDriver,
    binding: ConnectionBinding,
    frame: FrameEvent,
    last: BridgeEvent,
)
    requires
        frame != FrameEvent::Nothing,
        ({
            let step = bridge_after(driver, binding, BridgeEvent::Handled(Ok(Ok(frame))));
            bridge_awaits(true, step.phase, last)
        }),
    ensures
        ({
            let step = bridge_after(driver, binding, BridgeEvent::Handled(Ok(Ok(frame))));
            let end = bridge_after(driver, binding, last);
            &&& step.cancel
            &&& end.action is Finish
            &&& end.action->Finish_0 is Err
        }),
{
}

/// The bridge never goes on without its binding: it watches again only while the
/// authorized connection is the only one of the controller.
pub proof fn law_the_bridge_watches_only_while_bound(
    driver: EndpointDriver,
    binding: ConnectionBinding,
    event: BridgeEvent,
)
    requires
        bridge_after(driver, binding, event).phase == BridgePhase::Watching,
    ensures
        driver.connections.of(binding.peer) == seq![binding.connection],
{
}

/// The bridge goes on after everything that leaves it its binding (an input of no
/// concern, an answer to another controller, a queued file, a checkpoint, a frame that
/// says nothing): it watches while the authorized connection is the only one, and ends
/// otherwise, closing every connection when another one is there.
pub proof fn law_the_bridge_goes_on_while_bound(
    driver: EndpointDriver,
    binding: ConnectionBinding,
    event: BridgeEvent,
    refused: Result<(), HostError>,
)
    requires
        event == BridgeEvent::Offered || event == BridgeEvent::Refused(None) || event
            == BridgeEvent::Refused(Some(Ok(refused))) || event == BridgeEvent::Checkpointed(
            Ok(Ok(())),
        ) || event == BridgeEvent::Handled(Ok(Ok(FrameEvent::Nothing))),
    ensures
        ({
            let roster = driver.connections.of(binding.peer);
            let step = bridge_after(driver, binding, event);
            let close = bridge_closes(driver, binding, event);
            &&& !step.cancel
            &&& roster == seq![binding.connection] ==> step.phase == BridgePhase::Watching
                && step.action == BridgeAction::Watch && close == Seq::<ConnectionId>::empty()
            &&& roster.len() == 0 ==> step.phase == BridgePhase::Finished && step.action
                == BridgeAction::Finish(
                Err(HostError::Endpoint(EndpointError::BoundConnectionLost)),
            ) && close == Seq::<ConnectionId>::empty()
            &&& roster.len() > 0 && roster != seq![binding.connection] ==> step.phase
                == BridgePhase::Finished && step.action == BridgeAction::Finish(
                Err(HostError::Endpoint(EndpointError::AdditionalBoundConnection)),
            ) && close == roster
        }),
{
    assert(seq![binding.connection].len() == 1);
}

/// While the binding holds, an input of the endpoint leaves the bridge watching, a file
/// stream of the controller is queued, another controller is put off on its only
/// connection, and other streams are dropped.
pub proof fn law_inputs_of_a_bound_bridge(
    driver: EndpointDriver,
    binding: ConnectionBinding,
    node: crate::network::EndpointEvent,
    protocol: crate::host_inputs::InboundProtocol,
    peer: PeerId,
)
    requires
        driver.connections.of(binding.peer) == seq![binding.connection],
    ensures
        ({
            let watch = BridgeStep {
                phase: BridgePhase::Watching,
                cancel: false,
                action: BridgeAction::Watch,
            };
            let stream = BridgeEvent::Input(SessionWake::Stream { protocol, from: Some(peer) });
            let step = bridge_after(driver, binding, stream);
            let node = BridgeEvent::Input(SessionWake::Node(node));
            &&& bridge_after(driver, binding, node) == watch
            &&& bridge_closes(driver, binding, node) == Seq::<ConnectionId>::empty()
            &&& bridge_closes(driver, binding, stream) == Seq::<ConnectionId>::empty()
            &&& if protocol == crate::host_inputs::InboundProtocol::File && peer == binding.peer {
                step == (BridgeStep {
                    phase: BridgePhase::Offering,
                    cancel: false,
                    action: BridgeAction::OfferFile,
                })
            } else if protocol == crate::host_inputs::InboundProtocol::Auth
                && driver.connections.of(peer).len() == 1 {
                step == (BridgeStep {
                    phase: BridgePhase::Refusing,
                    cancel: false,
                    action: BridgeAction::Refuse(peer),
                })
            } else {
                step == watch
            }
        }),
{
    assert(seq![binding.connection].len() == 1);
}

/// A change of the controller's connections that breaks the binding ends the bridge.
pub proof fn law_a_broken_binding_ends_the_bridge(
    driver: EndpointDriver,
    binding: ConnectionBinding,
    wake: SessionWake,
    connection: ConnectionId,
    relayed: bool,
)
    requires
        driver.connections.of(binding.peer) != seq![binding.connection],
        wake == SessionWake::Node(
            crate::network::EndpointEvent::Established { peer: binding.peer, connection, relayed },
        ) || wake == SessionWake::Node(
            crate::network::EndpointEvent::Closed { peer: binding.peer, connection },
        ),
    ensures
        ({
            let roster = driver.connections.of(binding.peer);
            let step = bridge_after(driver, binding, BridgeEvent::Input(wake));
            let close = bridge_closes(driver, binding, BridgeEvent::Input(wake));
            &&& step.phase == BridgePhase::Finished
            &&& !step.cancel
            &&& step.action == BridgeAction::Finish(
                Err(
                    HostError::Endpoint(
                        if roster.len() == 0 {
                            EndpointError::BoundConnectionLost
                        } else {
                            EndpointError::AdditionalBoundConnection
                        },
                    ),
                ),
            )
            &&& close == roster
        }),
{
    assert(seq![binding.connection].len() == 1);
    if driver.connections.of(binding.peer).len() == 0 {
        assert(driver.connections.of(binding.peer) =~= Seq::empty());
    }
}

/// The end of the terminal's output ends the bridge with just that result, and so does a
/// failure of the input; both cancel file transfers, and so does a signal.
pub proof fn law_the_terminal_ends_the_bridge(
    driver: EndpointDriver,
    binding: ConnectionBinding,
    result: Result<u32, HostError>,
    error: HostError,
)
    ensures
        bridge_after(driver, binding, BridgeEvent::Output(result)) == (BridgeStep {
            phase: BridgePhase::Finished,
            cancel: true,
            action: BridgeAction::Finish(result),
        }),
        bridge_after(driver, binding, BridgeEvent::InputFailed(error)) == (BridgeStep {
            phase: BridgePhase::Finished,
            cancel: true,
            action: BridgeAction::Finish(Err(error)),
        }),
        bridge_after(driver, binding, BridgeEvent::Input(SessionWake::Signal(Ok(())))) == (
        BridgeStep {
            phase: BridgePhase::Finished,
            cancel: true,
            action: BridgeAction::Finish(Err(HostError::Interrupted)),
        }),
        bridge_after(driver, binding, BridgeEvent::CoordinatorEnded) == (BridgeStep {
            phase: BridgePhase::Finished,
            cancel: false,
            action: BridgeAction::Finish(Err(HostError::ProtocolRegistrationEnded)),
        }),
        forall|protocol: crate::host_inputs::InboundProtocol| #[trigger]
            bridge_after(
                driver,
                binding,
                BridgeEvent::Input((SessionWake::Stream { protocol, from: None })),
            ) == (BridgeStep {
                phase: BridgePhase::Finished,
                cancel: false,
                action: BridgeAction::Finish(Err(HostError::ProtocolRegistrationEnded)),
            }),
{
}

/// The audit is served as it asks to be: a poll sends a due checkpoint and a frame is
/// handled. A close is finalized with the reason that the controller gave, unless that is
/// a failure of its audit, which fails the session closed with the code that it gave.
pub proof fn law_the_audit_is_served(
    driver: EndpointDriver,
    binding: ConnectionBinding,
    reason: AuditCloseReason,
    code: u8,
)
    requires
        reason != AuditCloseReason::AuditFailure,
    ensures
        bridge_after(driver, binding, BridgeEvent::Poll) == (BridgeStep {
            phase: BridgePhase::Checkpointing,
            cancel: false,
            action: BridgeAction::SendCheckpoint,
        }),
        bridge_after(driver, binding, BridgeEvent::Frame(Ok(true))) == (BridgeStep {
            phase: BridgePhase::Handling,
            cancel: false,
            action: BridgeAction::HandleFrame,
        }),
        bridge_after(driver, binding, BridgeEvent::Handled(Ok(Ok(FrameEvent::Close(reason))))) == (
        BridgeStep {
            phase: BridgePhase::Finalizing,
            cancel: true,
            action: BridgeAction::Finalize(reason),
        }),
        bridge_after(
            driver,
            binding,
            BridgeEvent::Handled(Ok(Ok(FrameEvent::Close(AuditCloseReason::AuditFailure)))),
        ) == (BridgeStep {
            phase: BridgePhase::FailingClosed,
            cancel: true,
            action: BridgeAction::FailClosed {
                code: None,
                reason: AuditCloseReason::AuditFailure,
            },
        }),
        bridge_after(
            driver,
            binding,
            BridgeEvent::Handled(Ok(Ok(FrameEvent::PeerAuditError(code)))),
        ) == (BridgeStep {
            phase: BridgePhase::FailingClosed,
            cancel: true,
            action: BridgeAction::FailClosed {
                code: Some(code),
                reason: AuditCloseReason::AuditFailure,
            },
        }),
        bridge_after(driver, binding, BridgeEvent::Finalized(Ok(Ok(())))).action
            == BridgeAction::Finish(Err(HostError::ConnectionLost)),
        bridge_after(driver, binding, BridgeEvent::FailedClosed).action == BridgeAction::Finish(
            Err(HostError::Audit(AuditError::FailedClosed)),
        ),
{
}

/// A failure of the audit, or of the binding while the audit was served, ends the bridge
/// and is passed on; where transfers can still be under way they are cancelled.
pub proof fn law_a_failure_of_the_audit_ends_the_bridge(
    driver: EndpointDriver,
    binding: ConnectionBinding,
    audit: AuditError,
    endpoint: EndpointError,
)
    ensures
        ({
            let failed = BridgeAction::Finish(Err(HostError::Audit(audit)));
            let broken = BridgeAction::Finish(Err(HostError::Endpoint(endpoint)));
            let after = |event: BridgeEvent| bridge_after(driver, binding, event);
            &&& after(BridgeEvent::Frame(Err(audit))).action == failed && after(
                BridgeEvent::Frame(Err(audit)),
            ).cancel
            &&& after(BridgeEvent::Frame(Ok(false))).action == BridgeAction::Finish(
                Err(HostError::Audit(AuditError::FailedClosed)),
            ) && after(BridgeEvent::Frame(Ok(false))).cancel
            &&& after(BridgeEvent::Checkpointed(Ok(Err(audit)))).action == failed && after(
                BridgeEvent::Checkpointed(Ok(Err(audit))),
            ).cancel
            &&& after(BridgeEvent::Handled(Ok(Err(audit)))).action == failed && after(
                BridgeEvent::Handled(Ok(Err(audit))),
            ).cancel
            &&& after(BridgeEvent::Finalized(Ok(Err(audit)))).action == failed
            &&& after(BridgeEvent::Checkpointed(Err(endpoint))).action == broken && after(
                BridgeEvent::Checkpointed(Err(endpoint)),
            ).cancel
            &&& after(BridgeEvent::Handled(Err(endpoint))).action == broken && after(
                BridgeEvent::Handled(Err(endpoint)),
            ).cancel
            &&& after(BridgeEvent::Finalized(Err(endpoint))).action == broken
            &&& after(BridgeEvent::Refused(Some(Err(endpoint)))).action == broken
        }),
{
}

/// The bridge has come to an end exactly when it says what it ended with.
pub proof fn law_the_bridge_ends_with_a_result(
    driver: EndpointDriver,
    binding: ConnectionBinding,
    event: BridgeEvent,
)
    ensures
        bridge_after(driver, binding, event).phase == BridgePhase::Finished <==> bridge_after(
            driver,
            binding,
            event,
        ).action is Finish,
{
}

/// A stream that is served (a file of the controller, or another controller to be put off)
/// has nothing closed on its account; one that is dropped has the binding checked, and
/// closes every connection of a controller that has another one.
pub proof fn law_what_a_stream_closes(
    driver: EndpointDriver,
    binding: ConnectionBinding,
    protocol: crate::host_inputs::InboundProtocol,
    peer: PeerId,
)
    ensures
        ({
            let roster = driver.connections.of(binding.peer);
            let stream = BridgeEvent::Input(SessionWake::Stream { protocol, from: Some(peer) });
            let ended = BridgeEvent::Input(SessionWake::Stream { protocol, from: None });
            let served = (protocol == crate::host_inputs::InboundProtocol::File && peer
                == binding.peer) || (protocol == crate::host_inputs::InboundProtocol::Auth
                && driver.connections.of(peer).len() == 1);
            let close = bridge_closes(driver, binding, stream);
            let step = bridge_after(driver, binding, stream);
            &&& served ==> close == Seq::<ConnectionId>::empty() && !(step.action is Finish)
            &&& !served && roster.len() > 0 && roster != seq![binding.connection] ==> close
                == roster && step.action == BridgeAction::Finish(
                Err(HostError::Endpoint(EndpointError::AdditionalBoundConnection)),
            )
            &&& !served && (roster.len() == 0 || roster == seq![binding.connection]) ==> close
                == Seq::<ConnectionId>::empty()
            &&& bridge_closes(driver, binding, ended) == Seq::<ConnectionId>::empty()
        }),
        forall|result: Result<u32, HostError>| #[trigger]
            bridge_closes(driver, binding, BridgeEvent::Output(result)) == Seq::<
                ConnectionId,
            >::empty(),
        bridge_closes(driver, binding, BridgeEvent::Poll) == Seq::<ConnectionId>::empty(),
        bridge_closes(driver, binding, BridgeEvent::Input(SessionWake::Signal(Ok(())))) == Seq::<
            ConnectionId,
        >::empty(),
{
    assert(seq![binding.connection].len() == 1);
}

} // verus!
