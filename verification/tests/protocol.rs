use yon::backoff::{RetryBudget, RETRY_DELAY};
use yon::failure::{IoFailure, ProtocolError, ProtocolField};
use yon::network::{ApplicationStreamError, EndpointError, PeerId, MILLISECOND, SECOND};
use yon::protocol::{
    allocation_response, bounded_exchange, enterprise_frame, enterprise_frame_failure,
    exact_exchange, reclaim_response, release_response, resolve_peer_auto, resolve_response,
    retry_delay, AllocationResponse, BoundedResponse, EnterpriseAction, EnterpriseAttempt,
    EnterpriseEvent, EnterpriseExchange, EnterpriseFrame, EnterprisePhase, EnterpriseProvider,
    EnterpriseProviders, EnterpriseResolveResponse, ExchangeAction, ExchangeEvent, Locator,
    ReclaimResponse, ReclaimStep, RegistryResponse, RelayAnswer, RelayExchange, RelayOutcome,
    RelayProtocolError, RelayRequest, ResolveDeadline, ResolveResponse, ResolveRoute,
    ResolvedResponse, RetryAfter, CONTROLLER_RESOLVE_TIMEOUT, PROTOCOL_TIMEOUT, RETRY_LIMIT,
};

#[test]
fn retry_budget_and_wire_hint_are_bounded() {
    assert_eq!(RETRY_LIMIT, 20);
    assert_eq!(RetryAfter(250).millis(), 250);
    assert_eq!(PROTOCOL_TIMEOUT, 10 * SECOND);

    let mut budget = RetryBudget::limited();
    for _ in 0..RETRY_LIMIT {
        assert_eq!(budget.next_delay(), Some(RETRY_DELAY));
    }
    assert_eq!(budget.next_delay(), None);
    let mut unlimited = RetryBudget::unlimited();
    for _ in 0..1_000 {
        assert_eq!(unlimited.next_delay(), Some(250 * MILLISECOND));
    }
}

#[test]
fn controller_resolve_uses_one_absolute_thirty_second_budget() {
    let now = 77 * SECOND;
    let deadline = ResolveDeadline::controller(now).0;
    assert_eq!(CONTROLLER_RESOLVE_TIMEOUT, 30 * SECOND);
    assert!(deadline >= now + CONTROLLER_RESOLVE_TIMEOUT);
    assert!(deadline <= now + CONTROLLER_RESOLVE_TIMEOUT);
}

#[test]
fn retry_obeys_the_iterator_budget() {
    assert_eq!(
        retry_delay(Some(0), RetryAfter(100)).unwrap(),
        100 * MILLISECOND
    );
    assert!(matches!(
        retry_delay(None, RetryAfter(100)),
        Err(RelayProtocolError::RetryExhausted)
    ));
    assert_eq!(
        retry_delay(Some(250 * MILLISECOND), RetryAfter(100)).unwrap(),
        250 * MILLISECOND
    );

    let response = BoundedResponse::<3> {
        bytes: [1, 2, 0],
        len: 2,
    };
    assert_eq!(response.as_slice(), &[1, 2]);
    assert_eq!(
        RelayProtocolError::Capacity.message(),
        "the relay registration is at capacity"
    );
}

#[test]
fn registry_responses_are_exhaustively_classified() {
    let locator = Locator(7);
    assert!(matches!(
        allocation_response(RegistryResponse::Acquired(locator)).unwrap(),
        AllocationResponse::Acquired(value) if value == locator
    ));
    assert!(matches!(
        allocation_response(RegistryResponse::Retry(RetryAfter(100))).unwrap(),
        AllocationResponse::Retry(after) if after.millis() == 100
    ));
    assert!(matches!(
        allocation_response(RegistryResponse::Capacity),
        Err(RelayProtocolError::Capacity)
    ));
    assert!(matches!(
        allocation_response(RegistryResponse::ReservationRequired),
        Err(RelayProtocolError::ReservationRequired)
    ));
    for response in [RegistryResponse::Conflict, RegistryResponse::Released] {
        assert!(matches!(
            allocation_response(response),
            Err(RelayProtocolError::UnexpectedResponse)
        ));
    }

    assert!(release_response(RegistryResponse::Released).is_ok());
    assert!(matches!(
        release_response(RegistryResponse::Conflict),
        Err(RelayProtocolError::Conflict)
    ));
    assert!(matches!(
        release_response(RegistryResponse::ReservationRequired),
        Err(RelayProtocolError::ReservationRequired)
    ));
    for response in [
        RegistryResponse::Capacity,
        RegistryResponse::Acquired(locator),
        RegistryResponse::Retry(RetryAfter(100)),
    ] {
        assert!(matches!(
            release_response(response),
            Err(RelayProtocolError::UnexpectedResponse)
        ));
    }

    assert_eq!(
        reclaim_response(RegistryResponse::Acquired(locator), locator).unwrap(),
        ReclaimStep::Reclaimed
    );
    assert_eq!(
        reclaim_response(RegistryResponse::Conflict, locator).unwrap(),
        ReclaimStep::Conflict
    );
    assert!(matches!(
        reclaim_response(RegistryResponse::Acquired(Locator(8)), locator),
        Err(RelayProtocolError::LocatorMismatch)
    ));
    assert!(matches!(
        reclaim_response(RegistryResponse::Retry(RetryAfter(100)), locator).unwrap(),
        ReclaimStep::Retry(after) if after.millis() == 100
    ));
    assert!(matches!(
        reclaim_response(RegistryResponse::Capacity, locator),
        Err(RelayProtocolError::Capacity)
    ));
    assert!(matches!(
        reclaim_response(RegistryResponse::ReservationRequired, locator),
        Err(RelayProtocolError::ReservationRequired)
    ));
    assert!(matches!(
        reclaim_response(RegistryResponse::Released, locator),
        Err(RelayProtocolError::UnexpectedResponse)
    ));
}

#[test]
fn resolve_responses_validate_peer_identity_and_status() {
    let peer = PeerId(42);
    assert!(matches!(
        resolve_response(ResolveResponse::Resolved(Some(peer))).unwrap(),
        ResolvedResponse::Resolved(resolved) if resolved == peer
    ));
    assert!(matches!(
        resolve_response(ResolveResponse::Retry(RetryAfter(250))).unwrap(),
        ResolvedResponse::Retry(after) if after.millis() == 250
    ));
    assert!(matches!(
        resolve_response(ResolveResponse::Unavailable),
        Err(RelayProtocolError::Unavailable)
    ));
    assert!(matches!(
        resolve_response(ResolveResponse::Resolved(None)),
        Err(RelayProtocolError::InvalidPeerId)
    ));
}

#[test]
fn exact_exchange_rejects_truncation_trailing_data_and_timeout() {
    assert_eq!(exact_exchange::<5>(b"hello").unwrap(), *b"hello");
    assert!(matches!(
        exact_exchange::<5>(b"hell"),
        Err(RelayProtocolError::Io(IoFailure::UnexpectedEof))
    ));
    assert!(matches!(
        exact_exchange::<5>(b"hello!"),
        Err(RelayProtocolError::Protocol(ProtocolError::TrailingBytes))
    ));
    let mut exchange = RelayExchange::new(RelayRequest::Allocate);
    assert_eq!(
        exchange.advance(ExchangeEvent::DeadlinePassed),
        ExchangeAction::Finish(Err(RelayProtocolError::Timeout))
    );
}

#[test]
fn bounded_exchange_accepts_short_and_exact_responses_but_rejects_trailing_data() {
    assert_eq!(bounded_exchange::<5>(b"yon").unwrap().as_slice(), b"yon");
    assert_eq!(bounded_exchange::<5>(b"yon").unwrap().bytes, *b"yon\0\0");
    assert!(matches!(
        bounded_exchange::<5>(b"yonder"),
        Err(RelayProtocolError::Protocol(ProtocolError::TrailingBytes))
    ));
    assert_eq!(
        bounded_exchange::<5>(b"12345").unwrap().as_slice(),
        b"12345"
    );
}

fn answered(response: RegistryResponse) -> ExchangeEvent {
    ExchangeEvent::Answered(Ok(RelayAnswer::Registry(response)))
}

#[test]
fn an_allocation_retries_within_its_budget() {
    let mut exchange = RelayExchange::new(RelayRequest::Allocate);
    for _ in 0..RETRY_LIMIT {
        assert_eq!(
            exchange.advance(ExchangeEvent::Done(Ok(()))),
            ExchangeAction::Call(RelayRequest::Allocate)
        );
        assert_eq!(
            exchange.advance(answered(RegistryResponse::Retry(RetryAfter(400)))),
            ExchangeAction::Pause(400 * MILLISECOND)
        );
        assert_eq!(
            exchange.advance(ExchangeEvent::Done(Ok(()))),
            ExchangeAction::Reconverge
        );
    }
    exchange.advance(ExchangeEvent::Done(Ok(())));
    assert_eq!(
        exchange.advance(answered(RegistryResponse::Retry(RetryAfter(400)))),
        ExchangeAction::Finish(Err(RelayProtocolError::RetryExhausted))
    );
}

#[test]
fn a_reclaim_ends_as_the_relay_says() {
    let locator = Locator(9);
    for (response, expected) in [
        (
            RegistryResponse::Acquired(locator),
            Ok(RelayOutcome::Reclaimed(ReclaimResponse::Reclaimed)),
        ),
        (
            RegistryResponse::Conflict,
            Ok(RelayOutcome::Reclaimed(ReclaimResponse::Conflict)),
        ),
        (
            RegistryResponse::Acquired(Locator(10)),
            Err(RelayProtocolError::LocatorMismatch),
        ),
    ] {
        let mut exchange = RelayExchange::new(RelayRequest::Reclaim(locator));
        exchange.advance(ExchangeEvent::Done(Ok(())));
        assert_eq!(
            exchange.advance(answered(response)),
            ExchangeAction::Finish(expected)
        );
    }
    let mut lost = RelayExchange::new(RelayRequest::Reclaim(locator));
    assert_eq!(
        lost.advance(ExchangeEvent::Done(Err(
            EndpointError::SelectedConnectionLost
        ))),
        ExchangeAction::Finish(Err(RelayProtocolError::Endpoint(
            EndpointError::SelectedConnectionLost
        )))
    );
}

#[test]
fn a_resolve_retries_until_its_deadline() {
    let mut exchange = RelayExchange::new(RelayRequest::Resolve(Locator(1)));
    for _ in 0..(3 * RETRY_LIMIT) {
        exchange.advance(ExchangeEvent::Done(Ok(())));
        assert_eq!(
            exchange.advance(ExchangeEvent::Answered(Ok(RelayAnswer::Resolve(
                ResolveResponse::Retry(RetryAfter(1))
            )))),
            ExchangeAction::Pause(250 * MILLISECOND)
        );
        exchange.advance(ExchangeEvent::Done(Ok(())));
    }
    exchange.advance(ExchangeEvent::Done(Ok(())));
    assert_eq!(
        exchange.advance(ExchangeEvent::Answered(Ok(RelayAnswer::Resolve(
            ResolveResponse::Resolved(Some(PeerId(5)))
        )))),
        ExchangeAction::Finish(Ok(RelayOutcome::Resolved(PeerId(5))))
    );
}

#[test]
fn only_an_unsupported_protocol_falls_back() {
    let unsupported = RelayProtocolError::Endpoint(EndpointError::Application(
        ApplicationStreamError::UnsupportedProtocol,
    ));
    assert_eq!(resolve_peer_auto(Err(unsupported)), ResolveRoute::Legacy);
    for result in [
        Ok(PeerId(1)),
        Err(RelayProtocolError::Timeout),
        Err(RelayProtocolError::Endpoint(EndpointError::Application(
            ApplicationStreamError::Other,
        ))),
    ] {
        assert_eq!(resolve_peer_auto(result), ResolveRoute::Finish(result));
    }
}

fn read(response: EnterpriseResolveResponse) -> EnterpriseEvent {
    EnterpriseEvent::Response(Ok(response))
}

fn authorized() -> EnterpriseExchange {
    let (mut exchange, action) = EnterpriseExchange::new(Locator(3));
    assert_eq!(action, EnterpriseAction::WriteStart(Locator(3)));
    assert_eq!(
        exchange.advance(EnterpriseEvent::Written(Ok(()))),
        EnterpriseAction::Read
    );
    let providers = EnterpriseProviders(3);
    assert_eq!(
        exchange.advance(read(EnterpriseResolveResponse::Providers(providers))),
        EnterpriseAction::Select(providers)
    );
    let provider = EnterpriseProvider(1);
    assert_eq!(
        exchange.advance(EnterpriseEvent::Selected(Ok(provider))),
        EnterpriseAction::WriteSelection(provider)
    );
    assert_eq!(
        exchange.advance(EnterpriseEvent::Written(Ok(()))),
        EnterpriseAction::Read
    );
    let url = "https://auth.example/start".to_owned();
    assert_eq!(
        exchange.advance(read(EnterpriseResolveResponse::Authenticate(url))),
        EnterpriseAction::Open("https://auth.example/start".to_owned())
    );
    assert_eq!(
        exchange.advance(EnterpriseEvent::Opened(Ok(()))),
        EnterpriseAction::Read
    );
    exchange
}

#[test]
fn enterprise_exchange_resolves_after_the_full_flow() {
    let mut exchange = authorized();
    assert_eq!(
        exchange.advance(read(EnterpriseResolveResponse::Resolved(Some(PeerId(8))))),
        EnterpriseAction::Finish(Ok(EnterpriseAttempt::Resolved(PeerId(8))))
    );
    assert_eq!(exchange.phase(), EnterprisePhase::Finished);
}

#[test]
fn enterprise_exchange_retries_on_relay_limits() {
    let (mut exchange, _) = EnterpriseExchange::new(Locator(3));
    exchange.advance(EnterpriseEvent::Written(Ok(())));
    assert_eq!(
        exchange.advance(read(EnterpriseResolveResponse::Retry(RetryAfter(500)))),
        EnterpriseAction::Finish(Ok(EnterpriseAttempt::Retry(RetryAfter(500))))
    );
}

#[test]
fn enterprise_exchange_reports_terminal_outcomes() {
    for (response, expected) in [
        (
            EnterpriseResolveResponse::Unavailable,
            RelayProtocolError::Unavailable,
        ),
        (
            EnterpriseResolveResponse::Expired,
            RelayProtocolError::EnterpriseExpired,
        ),
        (
            EnterpriseResolveResponse::Failed,
            RelayProtocolError::EnterpriseRejected,
        ),
        (
            EnterpriseResolveResponse::Cancelled,
            RelayProtocolError::EnterpriseRejected,
        ),
    ] {
        let mut exchange = authorized();
        assert_eq!(
            exchange.advance(read(response)),
            EnterpriseAction::Finish(Err(expected))
        );
    }
}

#[test]
fn enterprise_exchange_rejects_unexpected_responses_and_invalid_peers() {
    let (mut exchange, _) = EnterpriseExchange::new(Locator(3));
    exchange.advance(EnterpriseEvent::Written(Ok(())));
    assert_eq!(
        exchange.advance(read(EnterpriseResolveResponse::Expired)),
        EnterpriseAction::Finish(Err(RelayProtocolError::UnexpectedResponse))
    );

    let mut late = authorized();
    assert_eq!(
        late.advance(read(EnterpriseResolveResponse::Providers(
            EnterpriseProviders(1)
        ))),
        EnterpriseAction::Finish(Err(RelayProtocolError::UnexpectedResponse))
    );

    let mut invalid = authorized();
    assert_eq!(
        invalid.advance(read(EnterpriseResolveResponse::Resolved(None))),
        EnterpriseAction::Finish(Err(RelayProtocolError::InvalidPeerId))
    );
}

#[test]
fn enterprise_exchange_times_out_on_a_silent_relay() {
    let (mut exchange, _) = EnterpriseExchange::new(Locator(3));
    exchange.advance(EnterpriseEvent::Written(Ok(())));
    assert_eq!(
        exchange.advance(EnterpriseEvent::Response(Err(RelayProtocolError::Timeout))),
        EnterpriseAction::Finish(Err(RelayProtocolError::Timeout))
    );
}

#[test]
fn enterprise_messages_are_read_to_their_end() {
    assert_eq!(enterprise_frame(&[], 64), EnterpriseFrame::Needs(1));
    assert_eq!(enterprise_frame(&[0x10], 64), EnterpriseFrame::Needs(1));
    assert_eq!(enterprise_frame(&[0x10, 3], 64), EnterpriseFrame::Complete);
    assert_eq!(enterprise_frame(&[0x11], 64), EnterpriseFrame::Needs(4));
    assert_eq!(
        enterprise_frame(&[0x11, 0, 0, 1, 0], 64),
        EnterpriseFrame::Complete
    );
    assert_eq!(enterprise_frame(&[0x12], 64), EnterpriseFrame::Needs(2));
    assert_eq!(
        enterprise_frame(&[0x12, 0, 64], 64),
        EnterpriseFrame::Needs(64)
    );
    assert_eq!(
        enterprise_frame(&[0x12, 0, 65], 64),
        EnterpriseFrame::TooLong
    );
    assert_eq!(
        enterprise_frame(&[0x12, 1, 2], 600),
        EnterpriseFrame::Needs(258)
    );
    assert_eq!(enterprise_frame(&[0x13], 64), EnterpriseFrame::Needs(1));
    assert_eq!(
        enterprise_frame(&[0x13, 2, 9], 64),
        EnterpriseFrame::Needs(1)
    );
    assert_eq!(enterprise_frame(&[0x13, 0], 64), EnterpriseFrame::Complete);
    assert_eq!(enterprise_frame(&[0x7f], 64), EnterpriseFrame::Complete);
    assert_eq!(
        enterprise_frame_failure(),
        RelayProtocolError::Protocol(ProtocolError::InvalidField(
            ProtocolField::AuthorizationUrl
        ))
    );
}

#[test]
fn relay_failures_have_their_messages() {
    for (error, message) in [
        (
            RelayProtocolError::Endpoint(EndpointError::RelayUnavailable),
            "no configured relay transport became usable",
        ),
        (
            RelayProtocolError::Timeout,
            "the relay protocol exchange timed out",
        ),
        (
            RelayProtocolError::Io(IoFailure::Other),
            "relay protocol I/O failed",
        ),
        (
            RelayProtocolError::Protocol(ProtocolError::Other),
            "the relay returned an invalid protocol message",
        ),
        (
            RelayProtocolError::EnterpriseExpired,
            "enterprise authentication expired",
        ),
    ] {
        assert_eq!(error.message(), message);
    }
}
