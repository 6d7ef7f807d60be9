use yon::connecting::Waited;
use yon::failure::{AuditError, IoFailure, TerminalError};
use yon::host::{HostError, HostStage, RelayAccessMode, SessionEvent};
use yon::host_relay::{
    run_host_session, wait_for_relay_access, AdvertisementNotice, Advertising, AdvertisingAction,
    AdvertisingEvent, LifeAction, LifeEvent, LifePhase, RelaySetup, SetupAction, SetupEvent,
    SetupMode, SetupOutcome, SetupStep,
};
use yon::host_session::{HostAction, HostEvent, HostSession, HostState, HostStep};
use yon::network::{
    ConnectionBinding, ConnectionId, EndpointDriver, EndpointError, ListenerId, PeerId,
    ReservationListenerId, MILLISECOND,
};
use yon::protocol::{Locator, ReclaimResponse, RelayProtocolError};

const CONTROLLER: PeerId = PeerId(30);

fn binding() -> ConnectionBinding {
    ConnectionBinding {
        peer: CONTROLLER,
        connection: ConnectionId(5),
    }
}

/// A session whose controller has authenticated.
fn authenticated(access: RelayAccessMode) -> (HostSession, HostStep) {
    let (mut session, step) = HostSession::new(access);
    assert_eq!(step.action, HostAction::CheckLease);
    let step = session.advance(HostEvent::Lease(true));
    assert_eq!(step.action, HostAction::AwaitAuth);
    let step = session.advance(HostEvent::Auth(Ok(Some(CONTROLLER))));
    assert_eq!(step.action, HostAction::AwaitQuiescence(CONTROLLER));
    assert_eq!(step.stage, Some(HostStage::AuthenticatingController));
    let step = session.advance(HostEvent::Quiescent(Ok(binding())));
    assert_eq!(step.action, HostAction::ReadHello(binding()));
    let step = session.advance(HostEvent::Driven(Ok(Ok(()))));
    assert_eq!(step.action, HostAction::CheckRate);
    let step = session.advance(HostEvent::Rate(true));
    assert_eq!(
        step.action,
        HostAction::Apply(SessionEvent::BeginAuthentication)
    );
    let step = session.advance(HostEvent::Applied(true));
    assert_eq!(step.action, HostAction::Authenticate(binding()));
    let step = session.advance(HostEvent::Driven(Ok(Ok(()))));
    assert_eq!(
        step.action,
        HostAction::Apply(SessionEvent::AuthenticationSucceeded)
    );
    (session, step)
}

/// A session with an active terminal.
fn committed(access: RelayAccessMode) -> HostSession {
    let (mut session, _) = authenticated(access);
    let step = session.advance(HostEvent::Applied(true));
    assert_eq!(step.action, HostAction::AwaitStreams(binding()));
    let step = session.advance(HostEvent::Streams(Ok(())));
    assert_eq!(
        step.action,
        HostAction::Apply(SessionEvent::TerminalStreamsReady)
    );
    let mut step = session.advance(HostEvent::Applied(true));
    if access == RelayAccessMode::Enterprise {
        assert_eq!(step.action, HostAction::LocateAudit);
        step = session.advance(HostEvent::Located(Ok(())));
    }
    assert_eq!(step.action, HostAction::StartTerminal(binding()));
    let step = session.advance(HostEvent::Driven(Ok(Ok(()))));
    assert_eq!(
        step.action,
        HostAction::Apply(SessionEvent::TerminalReadyFlushed)
    );
    let step = session.advance(HostEvent::Applied(true));
    assert_eq!(step.action, HostAction::Release(binding()));
    assert_eq!(step.stage, Some(HostStage::TerminalActive));
    let step = session.advance(HostEvent::Released(Err(RelayProtocolError::Timeout)));
    assert_eq!(step.action, HostAction::Bridge(binding()));
    session
}

#[test]
fn a_standard_session_ends_with_the_exit_of_its_shell() {
    let mut session = committed(RelayAccessMode::Standard);
    let step = session.advance(HostEvent::Bridged(Ok(23)));
    assert_eq!(step.action, HostAction::ShutDown);
    let step = session.advance(HostEvent::ShutDown(Ok(())));
    assert_eq!(step.action, HostAction::Apply(SessionEvent::ShellExited));
    let step = session.advance(HostEvent::Applied(true));
    assert_eq!(step.action, HostAction::Finish(Ok(23)));
    assert_eq!(step.state, HostState::Finished);
}

#[test]
fn a_failed_shutdown_is_reported_after_the_exit() {
    let mut session = committed(RelayAccessMode::Standard);
    session.advance(HostEvent::Bridged(Ok(0)));
    session.advance(HostEvent::ShutDown(Err(TerminalError::CleanupTimeout)));
    let step = session.advance(HostEvent::Applied(true));
    assert_eq!(
        step.action,
        HostAction::Finish(Err(HostError::Terminal(TerminalError::CleanupTimeout)))
    );
}

#[test]
fn an_audited_session_is_finalized_before_it_exits() {
    let mut session = committed(RelayAccessMode::Enterprise);
    session.advance(HostEvent::Bridged(Ok(0x1_17)));
    let step = session.advance(HostEvent::ShutDown(Ok(())));
    assert_eq!(
        step.action,
        HostAction::Finalize {
            binding: binding(),
            code: 0x17,
        }
    );
    let step = session.advance(HostEvent::Finalized(Ok(Ok(()))));
    assert_eq!(step.action, HostAction::Apply(SessionEvent::ShellExited));
    let step = session.advance(HostEvent::Applied(true));
    assert_eq!(step.action, HostAction::Finish(Ok(0x1_17)));

    let mut incomplete = committed(RelayAccessMode::Enterprise);
    incomplete.advance(HostEvent::Bridged(Ok(0)));
    incomplete.advance(HostEvent::ShutDown(Ok(())));
    let step = incomplete.advance(HostEvent::Finalized(Ok(Err(AuditError::FailedClosed))));
    assert_eq!(step.action, HostAction::Apply(SessionEvent::ConnectionLost));
    let step = incomplete.advance(HostEvent::Applied(true));
    assert_eq!(
        step.action,
        HostAction::Finish(Err(HostError::Audit(AuditError::FailedClosed)))
    );
}

#[test]
fn an_interrupted_audit_is_closed_first() {
    let mut session = committed(RelayAccessMode::Enterprise);
    session.advance(HostEvent::Bridged(Err(HostError::ConnectionLost)));
    let step = session.advance(HostEvent::ShutDown(Ok(())));
    assert_eq!(step.action, HostAction::CloseInterrupted);
    let step = session.advance(HostEvent::TailClosed);
    assert_eq!(step.action, HostAction::Apply(SessionEvent::ConnectionLost));
    let step = session.advance(HostEvent::Applied(true));
    assert_eq!(
        step.action,
        HostAction::Finish(Err(HostError::ConnectionLost))
    );

    let mut standard = committed(RelayAccessMode::Standard);
    standard.advance(HostEvent::Bridged(Err(HostError::Endpoint(
        EndpointError::AdditionalBoundConnection,
    ))));
    let step = standard.advance(HostEvent::ShutDown(Ok(())));
    assert_eq!(step.action, HostAction::Apply(SessionEvent::ExtraConnection));
}

#[test]
fn a_rejected_controller_leaves_the_host_waiting() {
    let (mut session, _) = HostSession::new(RelayAccessMode::Standard);
    session.advance(HostEvent::Lease(true));
    session.advance(HostEvent::Auth(Ok(Some(CONTROLLER))));
    session.advance(HostEvent::Quiescent(Ok(binding())));
    session.advance(HostEvent::Driven(Ok(Ok(()))));
    session.advance(HostEvent::Rate(true));
    session.advance(HostEvent::Applied(true));
    let step = session.advance(HostEvent::Driven(Ok(Err(HostError::Timeout))));
    assert_eq!(
        step.action,
        HostAction::Apply(SessionEvent::AuthenticationFailed)
    );
    let step = session.advance(HostEvent::Applied(true));
    assert_eq!(step.action, HostAction::CheckLease);
    assert_eq!(step.stage, Some(HostStage::WaitingForController));
}

#[test]
fn a_controller_beyond_the_rate_is_answered_with_retry() {
    let (mut session, _) = HostSession::new(RelayAccessMode::Standard);
    session.advance(HostEvent::Lease(true));
    session.advance(HostEvent::Auth(Ok(Some(CONTROLLER))));
    session.advance(HostEvent::Quiescent(Ok(binding())));
    session.advance(HostEvent::Driven(Ok(Ok(()))));
    let step = session.advance(HostEvent::Rate(false));
    assert_eq!(step.action, HostAction::SendRetry(binding()));
    let step = session.advance(HostEvent::Driven(Err(HostError::Endpoint(
        EndpointError::AdditionalBoundConnection,
    ))));
    assert_eq!(step.action, HostAction::ClosePeer(CONTROLLER));
    let step = session.advance(HostEvent::PeerClosed(Ok(())));
    assert_eq!(step.action, HostAction::CheckLease);
}

#[test]
fn a_lost_lease_is_recovered_before_the_host_waits() {
    let (mut session, _) = HostSession::new(RelayAccessMode::Standard);
    let step = session.advance(HostEvent::Lease(false));
    assert_eq!(step.action, HostAction::Recover);
    let step = session.advance(HostEvent::Recovered(Ok(())));
    assert_eq!(step.action, HostAction::AwaitAuth);

    let (mut changed, _) = HostSession::new(RelayAccessMode::Standard);
    changed.advance(HostEvent::Lease(false));
    let step = changed.advance(HostEvent::Recovered(Err(HostError::RelayAccessChanged)));
    assert_eq!(
        step.action,
        HostAction::Finish(Err(HostError::RelayAccessChanged))
    );
}

#[test]
fn a_failed_start_keeps_the_host_only_when_the_controller_failed() {
    for (driven, fatal) in [
        (Ok(Err(HostError::Timeout)), false),
        (Err(HostError::Interrupted), true),
    ] {
        let (mut session, _) = authenticated(RelayAccessMode::Standard);
        session.advance(HostEvent::Applied(true));
        session.advance(HostEvent::Streams(Ok(())));
        session.advance(HostEvent::Applied(true));
        let step = session.advance(HostEvent::Driven(driven));
        assert_eq!(
            step.action,
            HostAction::Apply(SessionEvent::TerminalStartFailed)
        );
        let step = session.advance(HostEvent::Applied(true));
        if fatal {
            assert_eq!(step.action, HostAction::Finish(Err(HostError::Interrupted)));
        } else {
            assert_eq!(step.action, HostAction::CheckLease);
        }
    }
}

#[test]
fn a_refused_transition_ends_the_session() {
    let (mut session, _) = authenticated(RelayAccessMode::Standard);
    let step = session.advance(HostEvent::Applied(false));
    assert_eq!(step.action, HostAction::Finish(Err(HostError::Session)));
}

fn listener(value: u64) -> ReservationListenerId {
    ReservationListenerId::new(ListenerId(value))
}

/// A setup that has discovered the relay's access policy.
fn discovered(mode: SetupMode, access: RelayAccessMode) -> (RelaySetup, SetupStep) {
    let (mut setup, step) = RelaySetup::new(mode, None);
    assert_eq!(step.action, SetupAction::Connect);
    let step = setup.advance(SetupEvent::Connected(Ok(())));
    assert_eq!(step.action, SetupAction::Reserve);
    let step = setup.advance(SetupEvent::Reserved(Ok(listener(3))));
    assert_eq!(step.action, SetupAction::AwaitReservation(listener(3)));
    assert_eq!(step.stage, Some(HostStage::ReservingRelay));
    assert_eq!(setup.reservation(), Some(listener(3)));
    let step = setup.advance(SetupEvent::Reservation(Ok(())));
    assert_eq!(step.action, SetupAction::DiscoverAccess);
    let step = setup.advance(SetupEvent::Access(Ok(access)));
    (setup, step)
}

#[test]
fn host_retry_delay_waits_before_the_next_attempt() {
    let (mut setup, _) = RelaySetup::new(SetupMode::Initial, None);
    let step = setup.advance(SetupEvent::Connected(Err(EndpointError::RelayUnavailable)));
    match step.action {
        SetupAction::Pause(delay) => {
            assert!(delay >= 250 * MILLISECOND, "first retry delay was {delay:?}");
            assert!(delay <= 500 * MILLISECOND);
        }
        other => panic!("no delay before the next attempt: {other:?}"),
    }
    assert_eq!(step.stage, Some(HostStage::ConnectingRelay));
    let step = setup.advance(SetupEvent::Paused);
    assert_eq!(step.action, SetupAction::Connect);
    let step = setup.advance(SetupEvent::Connected(Err(EndpointError::RelayUnavailable)));
    assert!(matches!(step.action, SetupAction::Pause(delay) if delay >= 500 * MILLISECOND));
}

#[test]
fn a_first_setup_advertises_the_host() {
    let (mut setup, step) = discovered(SetupMode::Initial, RelayAccessMode::Enterprise);
    assert_eq!(
        step.action,
        SetupAction::Allocate(AdvertisementNotice::Initial)
    );
    let step = setup.advance(SetupEvent::Allocated(Ok(())));
    assert_eq!(
        step.action,
        SetupAction::Finish(Ok(SetupOutcome {
            listener: listener(3),
            access: RelayAccessMode::Enterprise,
            advertised: true,
        }))
    );
    assert_eq!(step.remove, None);
}

#[test]
fn a_recovery_replaces_the_code_only_on_conflict() {
    let mode = SetupMode::Recovery(RelayAccessMode::Standard);
    let (mut setup, step) = discovered(mode, RelayAccessMode::Standard);
    assert_eq!(step.action, SetupAction::Reclaim);
    assert_eq!(step.stage, Some(HostStage::ReconnectingRelay));
    let step = setup.advance(SetupEvent::Reclaimed(Ok(ReclaimResponse::Reclaimed)));
    assert_eq!(
        step.action,
        SetupAction::Finish(Ok(SetupOutcome {
            listener: listener(3),
            access: RelayAccessMode::Standard,
            advertised: false,
        }))
    );

    let (mut conflicting, _) = discovered(mode, RelayAccessMode::Standard);
    let step = conflicting.advance(SetupEvent::Reclaimed(Ok(ReclaimResponse::Conflict)));
    assert_eq!(
        step.action,
        SetupAction::Allocate(AdvertisementNotice::Replacement)
    );

    let (mut transient, _) = discovered(mode, RelayAccessMode::Standard);
    let step = transient.advance(SetupEvent::Reclaimed(Err(RelayProtocolError::Capacity)));
    assert!(matches!(step.action, SetupAction::Pause(_)));
    assert_eq!(step.remove, Some(listener(3)));

    let (mut refused, _) = discovered(mode, RelayAccessMode::Standard);
    let step = refused.advance(SetupEvent::Reclaimed(Err(
        RelayProtocolError::LocatorMismatch,
    )));
    assert_eq!(
        step.action,
        SetupAction::Finish(Err(HostError::Relay(RelayProtocolError::LocatorMismatch)))
    );
    assert_eq!(step.remove, Some(listener(3)));

    let (_, step) = discovered(mode, RelayAccessMode::Enterprise);
    assert_eq!(
        step.action,
        SetupAction::Finish(Err(HostError::RelayAccessChanged))
    );
    assert_eq!(step.remove, Some(listener(3)));
}

#[test]
fn a_signal_ends_the_setup() {
    let (mut setup, step) = RelaySetup::new(
        SetupMode::Recovery(RelayAccessMode::Standard),
        Some(listener(9)),
    );
    assert_eq!(step.remove, Some(listener(9)));
    assert_eq!(step.stage, Some(HostStage::ReconnectingRelay));
    let step = setup.advance(SetupEvent::Signal(Ok(())));
    assert_eq!(
        step.action,
        SetupAction::Finish(Err(HostError::Interrupted))
    );
}

#[test]
fn an_advertisement_that_fails_is_released() {
    let (mut advertising, action) = Advertising::new(AdvertisementNotice::Replacement);
    assert_eq!(action, AdvertisingAction::Locate);
    let action = advertising.advance(AdvertisingEvent::Located(Ok(Locator(6))));
    assert_eq!(action, AdvertisingAction::Create(Locator(6)));
    let action = advertising.advance(AdvertisingEvent::Created(Ok(())));
    assert_eq!(action, AdvertisingAction::Notice);
    let action = advertising.advance(AdvertisingEvent::Noticed(Ok(())));
    assert_eq!(action, AdvertisingAction::Report);
    let action = advertising.advance(AdvertisingEvent::Reported(Err(IoFailure::Other)));
    assert_eq!(action, AdvertisingAction::Release(Locator(6)));
    let action = advertising.advance(AdvertisingEvent::Released(Err(RelayProtocolError::Timeout)));
    assert_eq!(
        action,
        AdvertisingAction::Finish(Err(HostError::Output(IoFailure::Other)))
    );

    let (mut initial, _) = Advertising::new(AdvertisementNotice::Initial);
    initial.advance(AdvertisingEvent::Located(Ok(Locator(7))));
    let action = initial.advance(AdvertisingEvent::Created(Ok(())));
    assert_eq!(action, AdvertisingAction::Report);
    let action = initial.advance(AdvertisingEvent::Reported(Ok(())));
    assert_eq!(action, AdvertisingAction::Finish(Ok(Locator(7))));
}

#[test]
fn relay_access_is_known_lost_or_timed_out() {
    let mut driver = EndpointDriver::new(PeerId(1));
    let relay = PeerId(2);
    assert_eq!(
        wait_for_relay_access(&driver, relay, None, Some(RelayAccessMode::Standard)),
        Some(Ok(RelayAccessMode::Standard))
    );
    driver
        .connections
        .established(relay, ConnectionId(1))
        .unwrap();
    assert_eq!(wait_for_relay_access(&driver, relay, None, None), None);
    assert!(matches!(
        wait_for_relay_access(&driver, relay, Some(Waited::Expired), None),
        Some(Err(HostError::RelayAccessUnavailable))
    ));
}

#[test]
fn a_host_run_releases_its_code_and_reservation() {
    let (phase, action) = run_host_session(LifePhase::Building, LifeEvent::Built(Ok(())));
    assert_eq!(action, LifeAction::Initialize);
    let (phase, action) = run_host_session(phase, LifeEvent::Initialized(Ok(())));
    assert_eq!(action, LifeAction::Run);
    let (phase, action) = run_host_session(phase, LifeEvent::Ended(Ok(3)));
    assert_eq!(action, LifeAction::Release);
    let (phase, action) =
        run_host_session(phase, LifeEvent::Released(Err(RelayProtocolError::Timeout)));
    assert_eq!(
        action,
        LifeAction::Finish {
            remove: true,
            result: Ok(3),
        }
    );
    assert_eq!(phase, LifePhase::Finished);
    let (_, action) = run_host_session(
        LifePhase::Building,
        LifeEvent::Built(Err(HostError::PeerIdentity)),
    );
    assert_eq!(
        action,
        LifeAction::Finish {
            remove: false,
            result: Err(HostError::PeerIdentity),
        }
    );
}
