use std::io::Write;
use yon::failure::{AuditError, IoFailure, ProtocolError, TerminalError};
use yon::host::{
    binding_event, connection_code_line, host_error_event, interruption, replacement_notice,
    retryable_relay_error, settle_binding_change, HostError, PendingPair, SessionEvent,
    EXCHANGE_TIMEOUT, PRE_AUTH_QUIESCENCE_TIMEOUT, TERMINAL_COMPLETION_TIMEOUT,
};
use yon::host_auth::{
    begin_authentication, create_advertisement, end_authentication, AUTH_RETRY_MILLIS,
};
use yon::host_bridge::{
    AuditCloseReason, Bridge, BridgeAction, BridgeEvent, BridgePhase, FrameEvent,
};
use yon::host_inputs::{
    auth_reconverged, drive_session_inputs, reject_extra_auth, unsettled_controller, wait_for_auth,
    wait_for_controller_quiescence, AuthPlan, InboundProtocol, InputVerdict, QuiescencePlan,
    SessionWake, StreamVerdict, StreamWait, StreamWake,
};
use yon::network::{
    ApplicationStreamError, ConnectionBinding, ConnectionId, DirectUpgradeOutcome, EndpointDriver,
    EndpointError, EndpointEvent, ListenerId, PeerId, RelayConnection, ReservationLease,
    ReservationListenerId, ReservationSlot, SECOND,
};
use yon::pake::{OpaquePake, OpaquePakeError, PakeSecret, PeerIdBytes};
use yon::protocol::{Locator, RelayProtocolError};

const CONTROLLER: PeerId = PeerId(20);
const STRANGER: PeerId = PeerId(21);
const RELAY: PeerId = PeerId(22);

fn binding() -> ConnectionBinding {
    ConnectionBinding {
        peer: CONTROLLER,
        connection: ConnectionId(1),
    }
}

fn bound_driver() -> EndpointDriver {
    let mut driver = EndpointDriver::new(PeerId(1));
    driver
        .connections
        .established(CONTROLLER, ConnectionId(1))
        .unwrap();
    driver
}

fn node(event: EndpointEvent) -> SessionWake {
    SessionWake::Node(event)
}

fn stream(protocol: InboundProtocol, from: Option<PeerId>) -> SessionWake {
    SessionWake::Stream { protocol, from }
}

struct FailingOutput;

impl Write for FailingOutput {
    fn write(&mut self, _buffer: &[u8]) -> std::io::Result<usize> {
        Err(std::io::Error::new(
            std::io::ErrorKind::BrokenPipe,
            "closed output",
        ))
    }

    fn flush(&mut self) -> std::io::Result<()> {
        Ok(())
    }
}

/// Writes a line of the host and flushes it.
fn report_to(output: &mut impl Write, line: &str) -> std::io::Result<()> {
    output.write_all(line.as_bytes())?;
    output.flush()
}

#[test]
fn pre_auth_convergence_is_tighter_than_each_frozen_message_timeout() {
    assert_eq!(PRE_AUTH_QUIESCENCE_TIMEOUT, 3 * SECOND);
    assert_eq!(EXCHANGE_TIMEOUT, 10 * SECOND);
    assert!(PRE_AUTH_QUIESCENCE_TIMEOUT < EXCHANGE_TIMEOUT);
    assert_eq!(TERMINAL_COMPLETION_TIMEOUT, 2 * SECOND);
}

#[test]
fn connection_code_output_is_flushed_and_failures_are_recoverable() {
    let code = "0000-0000-0000-0000";
    let mut output = Vec::new();
    report_to(&mut output, &connection_code_line(code)).unwrap();
    assert_eq!(
        String::from_utf8(output).unwrap(),
        "Connection code: 0000-0000-0000-0000\n"
    );
    assert_eq!(
        report_to(&mut FailingOutput, &connection_code_line(code))
            .unwrap_err()
            .kind(),
        std::io::ErrorKind::BrokenPipe
    );
}

#[test]
fn replacement_notice_makes_the_previous_code_state_explicit() {
    let mut output = Vec::new();
    report_to(&mut output, &replacement_notice()).unwrap();
    assert_eq!(
        String::from_utf8(output).unwrap(),
        "Connection code changed; the previous code is no longer valid.\n"
    );
    assert_eq!(
        report_to(&mut FailingOutput, &replacement_notice())
            .unwrap_err()
            .kind(),
        std::io::ErrorKind::BrokenPipe
    );
}

#[test]
fn advertisement_creation_registers_the_printed_code_for_authentication() {
    let locator = Locator(12_345);
    let target = PeerIdBytes {
        bytes: b"target-peer".to_vec(),
    };
    let secret = PakeSecret {
        bytes: 77_u64.to_be_bytes(),
    };
    let mut host = OpaquePake;
    let advertised = create_advertisement(locator, &target, Some(&secret), &mut host).unwrap();
    assert_eq!(advertised.locator, locator);

    // A client that knows the code completes the full exchange against the
    // registration that the host created.
    let context = [[9_u8; 32], [11_u8; 32]].concat();
    let mut client = OpaquePake;
    let (client_state, ke1) = client.client_start(&target, &secret).unwrap();
    let (server_state, ke2) = host
        .server_start(&advertised.registration, &ke1, &context)
        .unwrap();
    let (ke3, client_key) = client
        .client_finish(client_state, &ke2, &context)
        .unwrap();
    let server_key = host.server_finish(server_state, &ke3).unwrap();
    assert_eq!(client_key.as_ref(), server_key.as_ref());

    assert!(matches!(
        create_advertisement(locator, &target, None, &mut host),
        Err(HostError::Random)
    ));
}

#[test]
fn an_authentication_ends_with_the_last_message() {
    let target = PeerIdBytes {
        bytes: b"target-peer".to_vec(),
    };
    let secret = PakeSecret { bytes: [5; 8] };
    let mut host = OpaquePake;
    let advertised = create_advertisement(Locator(1), &target, Some(&secret), &mut host).unwrap();
    let registration = &advertised.registration;
    let mut client = OpaquePake;
    let (client_state, ke1) = client.client_start(&target, &secret).unwrap();

    assert!(matches!(
        begin_authentication(&mut host, registration, false, true, &ke1, b"context"),
        Err(HostError::PeerIdentity)
    ));
    assert!(matches!(
        begin_authentication(&mut host, registration, true, false, &ke1, b"context"),
        Err(HostError::Random)
    ));
    assert!(matches!(
        begin_authentication(&mut host, registration, true, true, &[0; 96], b"context"),
        Err(HostError::Pake(OpaquePakeError::Rejected))
    ));

    let (state, ke2) =
        begin_authentication(&mut host, registration, true, true, &ke1, b"context").unwrap();
    let (ke3, _) = client.client_finish(client_state, &ke2, b"context").unwrap();
    assert!(end_authentication(&mut host, state, Ok(ke3)).is_ok());

    let (state, _) =
        begin_authentication(&mut host, registration, true, true, &ke1, b"context").unwrap();
    assert!(matches!(
        end_authentication(&mut host, state, Ok([0; 64])),
        Err(HostError::Pake(OpaquePakeError::Rejected))
    ));
    let (state, _) =
        begin_authentication(&mut host, registration, true, true, &ke1, b"context").unwrap();
    assert!(matches!(
        end_authentication(&mut host, state, Err(HostError::Timeout)),
        Err(HostError::Timeout)
    ));
    assert_eq!(AUTH_RETRY_MILLIS, 1_000);
}

#[test]
fn terminal_stream_pair_preserves_whichever_arrives_first() {
    let mut data_first = PendingPair::new();
    data_first.insert_data(1_u8);
    assert_eq!(data_first.take_complete(), None);
    assert!(!data_first.needs_data());
    data_first.insert_data(9_u8);
    data_first.insert_control(2_u8);
    assert_eq!(data_first.take_complete(), Some((1, 2)));

    let mut control_first = PendingPair::new();
    control_first.insert_control(4_u8);
    assert_eq!(control_first.take_complete(), None);
    assert!(!control_first.needs_control());
    control_first.insert_control(8_u8);
    control_first.insert_data(3_u8);
    assert_eq!(control_first.take_complete(), Some((3, 4)));
}

#[test]
fn endpoint_failures_map_to_the_only_legal_session_events() {
    assert_eq!(
        binding_event(&EndpointError::AdditionalBoundConnection),
        SessionEvent::ExtraConnection
    );
    assert_eq!(
        binding_event(&EndpointError::BoundConnectionLost),
        SessionEvent::ConnectionLost
    );
    assert_eq!(
        host_error_event(
            &HostError::Endpoint(EndpointError::AdditionalBoundConnection),
            SessionEvent::TerminalStartFailed,
        ),
        SessionEvent::ExtraConnection
    );
    assert_eq!(
        host_error_event(&HostError::Timeout, SessionEvent::TerminalStartFailed),
        SessionEvent::TerminalStartFailed
    );
}

#[test]
fn relay_recovery_only_retries_transient_or_resource_failures() {
    for error in [
        RelayProtocolError::Endpoint(EndpointError::RelayUnavailable),
        RelayProtocolError::Timeout,
        RelayProtocolError::Io(IoFailure::Other),
        RelayProtocolError::Capacity,
        RelayProtocolError::ReservationRequired,
        RelayProtocolError::RetryExhausted,
    ] {
        assert!(retryable_relay_error(&error));
    }
    for error in [
        RelayProtocolError::Conflict,
        RelayProtocolError::LocatorMismatch,
        RelayProtocolError::Unavailable,
        RelayProtocolError::InvalidPeerId,
        RelayProtocolError::UnexpectedResponse,
    ] {
        assert!(!retryable_relay_error(&error));
    }
}

#[test]
fn only_an_additional_connection_closes_the_controller() {
    assert_eq!(
        settle_binding_change(binding(), &EndpointError::AdditionalBoundConnection),
        Some(CONTROLLER)
    );
    assert_eq!(
        settle_binding_change(binding(), &EndpointError::BoundConnectionLost),
        None
    );
    assert_eq!(interruption(Ok(())), HostError::Interrupted);
    assert_eq!(
        interruption(Err(IoFailure::Other)),
        HostError::Io(IoFailure::Other)
    );
}

#[test]
fn host_failures_have_their_messages() {
    for (error, message) in [
        (
            HostError::Endpoint(EndpointError::RelayUnavailable),
            "no configured relay transport became usable",
        ),
        (
            HostError::Relay(RelayProtocolError::Capacity),
            "the relay registration is at capacity",
        ),
        (
            HostError::Application(ApplicationStreamError::Other),
            "failed to register an endpoint application protocol",
        ),
        (HostError::Random, "secure random generation failed"),
        (
            HostError::Pake(OpaquePakeError::Rejected),
            "OPAQUE authentication failed",
        ),
        (
            HostError::PeerIdentity,
            "an endpoint identity could not be represented on the wire",
        ),
        (
            HostError::Timeout,
            "an authentication or terminal exchange timed out",
        ),
        (
            HostError::Io(IoFailure::Other),
            "endpoint protocol I/O failed",
        ),
        (
            HostError::Protocol(ProtocolError::Other),
            "an endpoint sent an invalid protocol message",
        ),
        (
            HostError::Session,
            "the target session state transition was rejected",
        ),
        (
            HostError::ConnectionLost,
            "the controller connection was lost",
        ),
        (
            HostError::RelayAccessUnavailable,
            "the relay did not advertise a supported access policy",
        ),
        (
            HostError::RelayAccessChanged,
            "the relay access policy changed while recovering the host connection",
        ),
        (
            HostError::ProtocolRegistrationEnded,
            "a required inbound application protocol registration ended",
        ),
        (HostError::Interrupted, "the host was interrupted"),
        (
            HostError::Output(IoFailure::Other),
            "failed to report the connection code",
        ),
    ] {
        assert_eq!(error.message().unwrap(), message);
    }
    assert!(HostError::Terminal(TerminalError::Open).message().is_none());
    assert!(HostError::Audit(AuditError::PeerUnsupported)
        .message()
        .is_none());
}

#[test]
fn a_controller_settles_on_one_connection_or_is_closed() {
    let mut driver = bound_driver();
    assert!(driver.direct_upgrades.begin(CONTROLLER));
    assert_eq!(
        wait_for_controller_quiescence(&driver, CONTROLLER, None),
        QuiescencePlan::Wait
    );
    driver
        .direct_upgrades
        .finish(CONTROLLER, DirectUpgradeOutcome::Failed);
    assert_eq!(
        wait_for_controller_quiescence(&driver, CONTROLLER, None),
        QuiescencePlan::Finish(Ok(binding()))
    );
    assert_eq!(
        wait_for_controller_quiescence(&driver, CONTROLLER, Some(SessionWake::Deadline)),
        QuiescencePlan::ClosePeer(CONTROLLER)
    );
    assert_eq!(
        wait_for_controller_quiescence(
            &driver,
            CONTROLLER,
            Some(stream(InboundProtocol::Data, None))
        ),
        QuiescencePlan::Finish(Err(HostError::ProtocolRegistrationEnded))
    );
    assert_eq!(
        wait_for_controller_quiescence(&driver, CONTROLLER, Some(SessionWake::Signal(Ok(())))),
        QuiescencePlan::Finish(Err(HostError::Interrupted))
    );
    assert_eq!(
        unsettled_controller(Ok(())),
        HostError::Endpoint(EndpointError::TargetUpgradeDidNotSettle)
    );
    assert_eq!(
        unsettled_controller(Err(EndpointError::ConnectionCloseDidNotConverge)),
        HostError::Endpoint(EndpointError::ConnectionCloseDidNotConverge)
    );
}

#[test]
fn a_host_waits_for_a_controller_on_a_usable_lease() {
    let mut driver = EndpointDriver::new(PeerId(1));
    driver
        .connections
        .established(RELAY, ConnectionId(8))
        .unwrap();
    let listener = ReservationListenerId::new(ListenerId(1));
    let lease = ReservationLease {
        relay: RelayConnection {
            binding: ConnectionBinding {
                peer: RELAY,
                connection: ConnectionId(8),
            },
            address: "/ip4/127.0.0.1/tcp/1".to_owned(),
        },
        listener,
    };
    assert_eq!(
        wait_for_auth(&driver, &lease, None),
        AuthPlan::Finish(Ok(None))
    );
    let mut slot = ReservationSlot::pending(listener);
    slot.mark_ready(listener);
    driver.reservation = Some(slot);
    assert_eq!(wait_for_auth(&driver, &lease, None), AuthPlan::Wait);
    assert_eq!(
        wait_for_auth(
            &driver,
            &lease,
            Some(stream(InboundProtocol::Auth, Some(CONTROLLER)))
        ),
        AuthPlan::Finish(Ok(Some(CONTROLLER)))
    );
    assert_eq!(
        wait_for_auth(
            &driver,
            &lease,
            Some(stream(InboundProtocol::File, Some(CONTROLLER)))
        ),
        AuthPlan::Wait
    );
    driver
        .connections
        .established(RELAY, ConnectionId(9))
        .unwrap();
    assert_eq!(wait_for_auth(&driver, &lease, None), AuthPlan::Reconverge);
    assert_eq!(auth_reconverged(Ok(())), AuthPlan::Wait);
    assert_eq!(
        auth_reconverged(Err(EndpointError::RelayDidNotConverge)),
        AuthPlan::Finish(Ok(None))
    );
    driver.connections.closed(RELAY, ConnectionId(8));
    assert_eq!(
        wait_for_auth(&driver, &lease, None),
        AuthPlan::Finish(Ok(None))
    );
}

#[test]
fn an_extra_connection_voids_the_work_of_a_controller() {
    let mut driver = bound_driver();
    let done = drive_session_inputs(&driver, binding(), false, SessionWake::Done);
    assert_eq!(done.verdict, InputVerdict::Finish(Ok(())));
    assert!(done.close.is_empty());

    driver
        .connections
        .established(CONTROLLER, ConnectionId(2))
        .unwrap();
    for wake in [
        SessionWake::Done,
        node(EndpointEvent::Established {
            peer: CONTROLLER,
            connection: ConnectionId(2),
            relayed: false,
        }),
    ] {
        let plan = drive_session_inputs(&driver, binding(), false, wake);
        assert_eq!(
            plan.verdict,
            InputVerdict::Finish(Err(HostError::Endpoint(
                EndpointError::AdditionalBoundConnection
            )))
        );
        assert_eq!(plan.close, vec![ConnectionId(1), ConnectionId(2)]);
    }
}

#[test]
fn streams_during_a_step_are_refused_dropped_or_offered() {
    let mut driver = bound_driver();
    driver
        .connections
        .established(STRANGER, ConnectionId(3))
        .unwrap();
    let verdict = |driver: &EndpointDriver, files, wake| {
        drive_session_inputs(driver, binding(), files, wake).verdict
    };
    assert_eq!(
        verdict(&driver, true, stream(InboundProtocol::Auth, Some(STRANGER))),
        InputVerdict::Refuse(STRANGER)
    );
    assert_eq!(
        verdict(&driver, true, stream(InboundProtocol::File, Some(STRANGER))),
        InputVerdict::Wait
    );
    assert_eq!(
        verdict(&driver, true, stream(InboundProtocol::File, Some(CONTROLLER))),
        InputVerdict::OfferFile
    );
    assert_eq!(
        verdict(&driver, false, stream(InboundProtocol::File, Some(CONTROLLER))),
        InputVerdict::Wait
    );
    assert_eq!(
        verdict(&driver, true, stream(InboundProtocol::Data, None)),
        InputVerdict::Finish(Err(HostError::ProtocolRegistrationEnded))
    );
    assert_eq!(
        verdict(&driver, true, SessionWake::Deadline),
        InputVerdict::Finish(Err(HostError::Timeout))
    );
    driver
        .connections
        .established(STRANGER, ConnectionId(4))
        .unwrap();
    assert_eq!(
        verdict(&driver, true, stream(InboundProtocol::Auth, Some(STRANGER))),
        InputVerdict::Wait
    );

    assert!(reject_extra_auth(None).is_ok());
    assert!(reject_extra_auth(Some(Ok(Err(HostError::Timeout)))).is_ok());
    assert_eq!(
        reject_extra_auth(Some(Err(EndpointError::BoundConnectionLost))),
        Err(HostError::Endpoint(EndpointError::BoundConnectionLost))
    );
}

#[test]
fn terminal_streams_count_once_the_acknowledgement_is_out() {
    let driver = bound_driver();
    let now = 40 * SECOND;
    let mut wait: StreamWait<u8, u8> = StreamWait::new(binding(), now);
    assert!(wait.acknowledging());
    assert_eq!(wait.deadline(), now + EXCHANGE_TIMEOUT);
    let (verdict, close) =
        wait.observe(&driver, StreamWake::Data(Some((CONTROLLER, 1))), now);
    assert_eq!(verdict, StreamVerdict::Wait);
    assert!(close.is_empty());
    let (verdict, _) = wait.observe(&driver, StreamWake::Control(Some((STRANGER, 7))), now);
    assert_eq!(verdict, StreamVerdict::Wait);
    let (verdict, _) = wait.observe(&driver, StreamWake::Control(Some((CONTROLLER, 2))), now);
    assert_eq!(verdict, StreamVerdict::Wait);
    let (verdict, _) = wait.observe(&driver, StreamWake::Acknowledged(Ok(())), now + SECOND);
    assert_eq!(verdict, StreamVerdict::Finish(Ok((1, 2))));

    let mut late: StreamWait<u8, u8> = StreamWait::new(binding(), now);
    let (verdict, _) = late.observe(&driver, StreamWake::Acknowledged(Ok(())), now + SECOND);
    assert_eq!(verdict, StreamVerdict::Wait);
    assert!(!late.acknowledging());
    assert_eq!(late.deadline(), now + SECOND + EXCHANGE_TIMEOUT);
    let (verdict, _) = late.observe(
        &driver,
        StreamWake::Input(SessionWake::Deadline),
        late.deadline(),
    );
    assert_eq!(verdict, StreamVerdict::Finish(Err(HostError::Timeout)));

    let mut ended: StreamWait<u8, u8> = StreamWait::new(binding(), now);
    let (verdict, _) = ended.observe(&driver, StreamWake::Data(None), now);
    assert_eq!(
        verdict,
        StreamVerdict::Finish(Err(HostError::ProtocolRegistrationEnded))
    );
}

#[test]
fn a_bridge_ends_with_the_exit_code_of_the_output() {
    let driver = bound_driver();
    let (mut bridge, step, close) = Bridge::new(&driver, binding(), false);
    assert_eq!(step.phase, BridgePhase::Watching);
    assert!(close.is_empty());
    let (step, _) = bridge.advance(
        &driver,
        BridgeEvent::Input(stream(InboundProtocol::File, Some(CONTROLLER))),
    );
    assert_eq!(step.action, BridgeAction::OfferFile);
    let (step, _) = bridge.advance(&driver, BridgeEvent::Offered);
    assert_eq!(step.action, BridgeAction::Watch);
    let (step, _) = bridge.advance(&driver, BridgeEvent::Output(Ok(23)));
    assert_eq!(step.action, BridgeAction::Finish(Ok(23)));
    assert!(step.cancel);
}

#[test]
fn a_bridge_fails_closed_with_the_controller_audit() {
    let driver = bound_driver();
    for (frame, expected) in [
        (
            FrameEvent::Close(AuditCloseReason::AuditFailure),
            BridgeAction::FailClosed {
                code: None,
                reason: AuditCloseReason::AuditFailure,
            },
        ),
        (
            FrameEvent::PeerAuditError(4),
            BridgeAction::FailClosed {
                code: Some(4),
                reason: AuditCloseReason::AuditFailure,
            },
        ),
    ] {
        let (mut bridge, _, _) = Bridge::new(&driver, binding(), true);
        let (step, _) = bridge.advance(&driver, BridgeEvent::Frame(Ok(true)));
        assert_eq!(step.action, BridgeAction::HandleFrame);
        let (step, _) = bridge.advance(&driver, BridgeEvent::Handled(Ok(Ok(frame))));
        assert_eq!(step.action, expected);
        assert!(step.cancel);
        let (step, _) = bridge.advance(&driver, BridgeEvent::FailedClosed);
        assert_eq!(
            step.action,
            BridgeAction::Finish(Err(HostError::Audit(AuditError::FailedClosed)))
        );
    }

    let (mut ended, _, _) = Bridge::new(&driver, binding(), true);
    let (step, _) = ended.advance(&driver, BridgeEvent::Frame(Ok(false)));
    assert_eq!(
        step.action,
        BridgeAction::Finish(Err(HostError::Audit(AuditError::FailedClosed)))
    );

    let (mut detached, _, _) = Bridge::new(&driver, binding(), true);
    detached.advance(&driver, BridgeEvent::Frame(Ok(true)));
    let reason = AuditCloseReason::Other(3);
    let (step, _) =
        detached.advance(&driver, BridgeEvent::Handled(Ok(Ok(FrameEvent::Close(reason)))));
    assert_eq!(step.action, BridgeAction::Finalize(reason));
    let (step, _) = detached.advance(&driver, BridgeEvent::Finalized(Ok(Ok(()))));
    assert_eq!(
        step.action,
        BridgeAction::Finish(Err(HostError::ConnectionLost))
    );
}

#[test]
fn a_bridge_checkpoints_while_it_watches() {
    let mut driver = bound_driver();
    let (mut bridge, _, _) = Bridge::new(&driver, binding(), true);
    let (step, _) = bridge.advance(&driver, BridgeEvent::Poll);
    assert_eq!(step.action, BridgeAction::SendCheckpoint);
    let (step, _) = bridge.advance(&driver, BridgeEvent::Checkpointed(Ok(Ok(()))));
    assert_eq!(step.action, BridgeAction::Watch);
    bridge.advance(&driver, BridgeEvent::Poll);
    driver
        .connections
        .established(CONTROLLER, ConnectionId(2))
        .unwrap();
    let (step, close) = bridge.advance(&driver, BridgeEvent::Checkpointed(Ok(Ok(()))));
    assert_eq!(
        step.action,
        BridgeAction::Finish(Err(HostError::Endpoint(
            EndpointError::AdditionalBoundConnection
        )))
    );
    assert_eq!(close, vec![ConnectionId(1), ConnectionId(2)]);
}
