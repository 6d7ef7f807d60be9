use yon::connecting::{
    check_relay_dial, close_peer_after, close_peer_and_wait, configured_relay_result,
    converge_after, converge_to_binding, convergence_deadline, dial_relay_set, drain_after,
    drain_relay_state, finish_relay_selection, next_relay_dial, process_relay_selection_event,
    process_target_selection_event, relay_deadlines, relay_drain_event, reservation_decision,
    selected_relay_address, settle_selection_order, target_selection_is_settled,
    wait_for_reservation, wait_for_target_quiescence, Convergence, DirectUpgradePolicy,
    RelayAttempt, RelayExpiry, RelayPlan, ReservationDecision, SelectionOrder, SelectionOutcome,
    TargetAttempt, TargetPlan, Waited,
};
use yon::network::{
    enforce_binding_after_event, finish_bound_output, relay_backoff, ApplicationStreamError,
    BindingState, ConnectionBinding, ConnectionBook, ConnectionId, DirectUpgradeOutcome,
    DirectUpgradeTracker, EndpointDriver, EndpointError, EndpointEvent, ListenerId, NodeEvent,
    PeerId, PendingRelayDials, RelayConnection, ReservationLease, ReservationListenerId,
    ReservationSlot, CONNECTION_CAPACITY, CONNECT_TIMEOUT, CONVERGENCE_TIMEOUT, MILLISECOND,
    RELAY_BACKOFF_MIN, RELAY_DIAL_WINDOW, RELAY_DRAIN_WINDOW, SECOND, SELECTION_WINDOW,
    TARGET_SELECTION_WINDOW, TARGET_SETTLE_TIMEOUT,
};

const LOCAL: PeerId = PeerId(1);
const PEER: PeerId = PeerId(2);
const OTHER: PeerId = PeerId(3);

fn endpoint_driver() -> EndpointDriver {
    EndpointDriver::new(LOCAL)
}

fn relay_connection(peer: PeerId, connection: u64) -> RelayConnection {
    RelayConnection {
        binding: ConnectionBinding {
            peer,
            connection: ConnectionId(connection),
        },
        address: "/ip4/127.0.0.1/tcp/1".to_owned(),
    }
}

fn established(peer: PeerId, connection: u64) -> EndpointEvent {
    EndpointEvent::Established {
        peer,
        connection: ConnectionId(connection),
        relayed: false,
    }
}

#[test]
fn endpoint_time_bounds_are_ordered() {
    assert!(SELECTION_WINDOW < CONVERGENCE_TIMEOUT);
    assert!(CONVERGENCE_TIMEOUT < CONNECT_TIMEOUT);
    assert_eq!(SELECTION_WINDOW, TARGET_SELECTION_WINDOW);
    assert!(TARGET_SELECTION_WINDOW < CONVERGENCE_TIMEOUT);
    assert!(3 * 8 * SECOND + TARGET_SELECTION_WINDOW < TARGET_SETTLE_TIMEOUT);
    assert_eq!(RELAY_DIAL_WINDOW, SELECTION_WINDOW);
    assert_eq!(RELAY_DRAIN_WINDOW, 500 * MILLISECOND);
    assert!(RELAY_DIAL_WINDOW + 8 * SECOND + RELAY_DRAIN_WINDOW <= CONNECT_TIMEOUT);
}

#[test]
fn target_settlement_requires_policy_specific_direct_upgrade_evidence() {
    let connection = ConnectionId(700);
    assert!(target_selection_is_settled(
        false,
        None,
        true,
        DirectUpgradePolicy::Disabled,
    ));
    assert!(!target_selection_is_settled(
        false,
        None,
        true,
        DirectUpgradePolicy::Enabled,
    ));
    assert!(target_selection_is_settled(
        false,
        Some(DirectUpgradeOutcome::Failed),
        true,
        DirectUpgradePolicy::Enabled,
    ));
    assert!(!target_selection_is_settled(
        false,
        Some(DirectUpgradeOutcome::Connected(connection)),
        true,
        DirectUpgradePolicy::Enabled,
    ));
    assert!(target_selection_is_settled(
        true,
        Some(DirectUpgradeOutcome::Connected(connection)),
        true,
        DirectUpgradePolicy::Enabled,
    ));
    assert!(!target_selection_is_settled(
        true,
        Some(DirectUpgradeOutcome::Connected(connection)),
        false,
        DirectUpgradePolicy::Enabled,
    ));

    let mut driver = endpoint_driver();
    assert!(!driver.direct_upgrade_ready(PEER));
    assert!(driver.direct_upgrades.begin(PEER));
    driver
        .direct_upgrades
        .finish(PEER, DirectUpgradeOutcome::Connected(connection));
    assert!(!driver.direct_upgrade_ready(PEER));
    driver.connections.established(PEER, connection).unwrap();
    assert!(driver.direct_upgrade_ready(PEER));
    driver.connections.closed(PEER, connection);
    assert!(!driver.direct_upgrade_ready(PEER));
    driver
        .direct_upgrades
        .finish(PEER, DirectUpgradeOutcome::Failed);
    assert!(driver.direct_upgrade_ready(PEER));
}

#[test]
fn direct_upgrade_tracker_is_bounded_resettable_and_peer_exact() {
    let mut tracker = DirectUpgradeTracker::new();
    let peer = PeerId(10);
    let unknown = PeerId(11);
    assert_eq!(tracker.outcome(peer), None);
    tracker.finish(unknown, DirectUpgradeOutcome::Failed);
    assert!(tracker.begin(peer));
    tracker.finish(peer, DirectUpgradeOutcome::Failed);
    assert_eq!(tracker.outcome(peer), Some(DirectUpgradeOutcome::Failed));
    assert!(tracker.begin(peer));
    assert_eq!(tracker.outcome(peer), None);
    tracker.remove(unknown);
    tracker.remove(peer);

    for peer in 0..CONNECTION_CAPACITY {
        assert!(tracker.begin(PeerId(100 + peer as u64)));
    }
    let overflow = PeerId(200);
    assert!(!tracker.begin(overflow));
}

#[test]
fn relay_backoff_is_exponential_jittered_and_bounded() {
    let mut backoff = relay_backoff();
    let bases = [250_u64, 500, 1_000, 2_000, 4_000, 5_000, 5_000, 5_000];
    for base in bases {
        let delay = backoff.next_delay().unwrap();
        assert!(delay >= base * MILLISECOND);
        assert!(delay < base * 2 * MILLISECOND);
    }
}

#[test]
fn relay_redial_is_rejected_after_the_bounded_dial_window() {
    let now = 7 * SECOND;
    assert!(next_relay_dial(now, MILLISECOND, now + SECOND).is_some());
    assert!(next_relay_dial(now, SECOND, now + MILLISECOND).is_none());
}

#[test]
fn reservation_slot_only_tracks_its_exact_listener() {
    let expected = ReservationListenerId::new(ListenerId(1));
    let other = ReservationListenerId::new(ListenerId(2));
    let mut slot = ReservationSlot::pending(expected);

    assert!(!slot.is_ready(expected));
    assert!(!slot.mark_ready(other));
    assert!(!slot.is_ready(expected));
    assert!(slot.mark_ready(expected));
    assert!(slot.is_ready(expected));
    assert!(!slot.mark_closed(other));
    assert!(slot.is_ready(expected));
    assert!(slot.mark_closed(expected));
    assert!(!slot.is_ready(expected));
}

#[test]
fn reservation_lease_survives_temporary_extras_but_not_selected_connection_loss() {
    let mut driver = endpoint_driver();
    let relay = PEER;
    let first = ConnectionId(31);
    driver.connections.established(relay, first).unwrap();
    let reservation_listener = ReservationListenerId::new(ListenerId(5));
    let mut reservation = ReservationSlot::pending(reservation_listener);
    assert!(reservation.mark_ready(reservation_listener));
    driver.reservation = Some(reservation);
    let lease = ReservationLease {
        relay: relay_connection(relay, 31),
        listener: reservation_listener,
    };
    assert!(lease.is_usable(&driver));

    driver
        .connections
        .established(relay, ConnectionId(32))
        .unwrap();
    assert!(lease.is_usable(&driver));
    driver.connections.closed(relay, first);
    assert!(!lease.is_usable(&driver));
}

#[test]
fn pending_relay_dials_are_removed_by_exact_connection_id() {
    let first = ConnectionId(11);
    let second = ConnectionId(12);
    let mut pending = PendingRelayDials::new();
    assert!(pending.is_empty());
    pending.insert(first).unwrap();
    pending.insert(second).unwrap();
    assert!(!pending.is_empty());
    pending.remove(ConnectionId(13));
    assert!(!pending.is_empty());
    pending.remove(first);
    assert!(!pending.is_empty());
    pending.remove(second);
    assert!(pending.is_empty());

    for connection in 20..28 {
        pending.insert(ConnectionId(connection)).unwrap();
    }
    assert!(matches!(
        pending.insert(ConnectionId(28)),
        Err(EndpointError::RelayDialTrackerUnavailable)
    ));
}

#[test]
fn bound_io_rejects_additional_or_lost_physical_connections() {
    let mut driver = endpoint_driver();
    assert_eq!(driver.peer_id(), LOCAL);
    let peer = PEER;
    assert_eq!(driver.connection_count(peer), 0);
    assert!(!driver.has_unique_connection(peer));
    assert!(matches!(
        driver.bind(peer),
        Err(EndpointError::BoundConnectionLost)
    ));
    assert_eq!(close_peer_and_wait(&driver, peer).state, Convergence::Settled);

    let first = ConnectionId(1);
    driver.connections.established(peer, first).unwrap();
    assert_eq!(driver.connection_count(peer), 1);
    assert!(driver.has_unique_connection(peer));
    let binding = driver.bind(peer).unwrap();
    assert_eq!(binding.peer(), peer);
    assert_eq!(binding.connection(), first);
    assert!(driver.has_connection(binding));
    assert_eq!(finish_bound_output(&driver, binding, 7).0.unwrap(), 7);

    let second = ConnectionId(2);
    driver.connections.established(peer, second).unwrap();
    assert_eq!(driver.connection_count(peer), 2);
    assert!(!driver.has_unique_connection(peer));
    assert!(matches!(
        driver.bind(peer),
        Err(EndpointError::AdditionalBoundConnection)
    ));
    let wrong = ConnectionBinding {
        peer,
        connection: ConnectionId(3),
    };
    let enforced = driver.enforce_binding(wrong);
    assert!(matches!(
        enforced.result,
        Err(EndpointError::AdditionalBoundConnection)
    ));
    assert_eq!(enforced.close, vec![first, second]);
    assert!(matches!(
        finish_bound_output(&driver, binding, 9).0,
        Err(EndpointError::AdditionalBoundConnection)
    ));

    driver.connections.closed(peer, first);
    driver.connections.closed(peer, second);
    assert!(matches!(
        finish_bound_output(&driver, binding, 11).0,
        Err(EndpointError::BoundConnectionLost)
    ));
}

#[test]
fn driver_guards_and_absolute_deadlines_cover_failure_paths() {
    let mut driver = endpoint_driver();
    let relay_peer = PEER;
    let relay = relay_connection(relay_peer, 40);
    let listener = ReservationListenerId::new(ListenerId(1));
    driver.reservation = Some(ReservationSlot::pending(listener));
    assert!(matches!(
        driver.check_reserve(),
        Err(EndpointError::ReservationAlreadyExists)
    ));

    let other_listener = ReservationListenerId::new(ListenerId(2));
    assert!(!driver.remove_reservation(other_listener));
    assert!(driver.reservation.is_some());
    assert!(driver.remove_reservation(listener));
    assert!(driver.reservation.is_none());

    let connection = ConnectionId(40);
    driver
        .connections
        .established(relay_peer, connection)
        .unwrap();
    assert_eq!(
        close_peer_and_wait(&driver, relay_peer).close,
        vec![connection]
    );
    assert!(matches!(
        close_peer_after(Waited::Expired),
        Err(EndpointError::ConnectionCloseDidNotConverge)
    ));

    let binding = ConnectionBinding {
        peer: relay_peer,
        connection,
    };
    driver
        .connections
        .established(relay_peer, ConnectionId(41))
        .unwrap();
    let round = converge_to_binding(&driver, binding);
    assert_eq!(round.close, vec![ConnectionId(41)]);
    assert_eq!(round.state, Convergence::Pending);
    assert!(matches!(
        converge_after(Waited::Expired),
        Err(EndpointError::RelayDidNotConverge)
    ));
    driver.connections.closed(relay_peer, connection);
    driver.connections.closed(relay_peer, ConnectionId(41));
    assert_eq!(
        converge_to_binding(&driver, binding).state,
        Convergence::Failed(EndpointError::SelectedConnectionLost)
    );
    let attempt = TargetAttempt::new(relay_peer, 5, DirectUpgradePolicy::Enabled);
    assert_eq!(attempt.deadline(), 5);
    let mut attempt = attempt;
    assert_eq!(
        attempt.expired(false),
        TargetPlan::GiveUp(EndpointError::RelayUnavailable)
    );
    assert_eq!(
        wait_for_reservation(&driver, &relay, listener, Waited::Expired),
        ReservationDecision::Failed(EndpointError::RelayUnavailable)
    );
}

#[test]
fn relay_drain_classifies_lost_extra_and_unselected_connections() {
    let peer = PEER;
    let missing = ConnectionBinding {
        peer,
        connection: ConnectionId(50),
    };
    let mut driver = endpoint_driver();
    assert_eq!(
        drain_relay_state(&driver, peer, Some(missing)).state,
        Convergence::Failed(EndpointError::SelectedConnectionLost)
    );

    let kept = ConnectionId(51);
    let extra = ConnectionId(52);
    driver.connections.established(peer, kept).unwrap();
    driver.connections.established(peer, extra).unwrap();
    let binding = ConnectionBinding {
        peer,
        connection: kept,
    };
    let round = drain_relay_state(&driver, peer, Some(binding));
    assert_eq!(round.close, vec![extra]);
    assert_eq!(round.state, Convergence::Pending);
    assert!(matches!(
        drain_after(Waited::Expired, Some(binding)),
        Err(EndpointError::RelayDidNotConverge)
    ));
    let round = drain_relay_state(&driver, peer, None);
    assert_eq!(round.close, vec![kept, extra]);
    assert_eq!(round.state, Convergence::Pending);

    driver.connections.closed(peer, extra);
    assert_eq!(
        drain_relay_state(&driver, peer, Some(binding)).state,
        Convergence::Settled
    );
    driver.connections.closed(peer, kept);
    assert_eq!(
        drain_relay_state(&driver, peer, None).state,
        Convergence::Settled
    );
}

#[test]
fn relay_dial_and_stream_failures_are_structured_without_waiting() {
    let mut driver = endpoint_driver();
    assert!(check_relay_dial(&driver).is_ok());
    driver.pending_relay_dials.insert(ConnectionId(60)).unwrap();
    assert!(matches!(
        check_relay_dial(&driver),
        Err(EndpointError::RelayDialTrackerUnavailable)
    ));
    assert!(matches!(
        dial_relay_set(&mut driver, &vec![Some(ConnectionId(61))]),
        Err(EndpointError::RelayDialTrackerUnavailable)
    ));
    driver.pending_relay_dials = PendingRelayDials::new();
    assert!(dial_relay_set(&mut driver, &vec![None, Some(ConnectionId(61))]).is_ok());
    let now = 3 * SECOND;
    let mut attempt = RelayAttempt::new(now, now, !driver.pending_relay_dials.is_empty());
    assert_eq!(attempt.plan(true), RelayPlan::WaitUntil(now));
    assert_eq!(
        attempt.expired(now),
        RelayExpiry::Fail(EndpointError::RelayUnavailable)
    );

    let many: Vec<Option<ConnectionId>> =
        (0..9_u64).map(|connection| Some(ConnectionId(connection))).collect();
    let mut crowded = endpoint_driver();
    assert!(matches!(
        dial_relay_set(&mut crowded, &many),
        Err(EndpointError::RelayDialTrackerUnavailable)
    ));
    for connection in 0..8 {
        assert!(!crowded.pending_relay_dials.is_empty());
        crowded.pending_relay_dials.remove(ConnectionId(connection));
    }
    assert!(crowded.pending_relay_dials.is_empty());
    assert_eq!(
        EndpointError::Application(ApplicationStreamError::UnsupportedProtocol).message(),
        "an application protocol stream could not be opened"
    );
}

#[test]
fn reservation_decisions_cover_every_terminal_and_ignored_event() {
    let peer = PEER;
    let relay = relay_connection(peer, 80);
    let listener = ReservationListenerId::new(ListenerId(1));
    let other = ReservationListenerId::new(ListenerId(2));

    assert!(matches!(
        reservation_decision(
            &EndpointEvent::ReservationReady(listener),
            &relay,
            listener,
            true,
        ),
        ReservationDecision::Ready
    ));
    assert!(matches!(
        reservation_decision(
            &EndpointEvent::ReservationReady(listener),
            &relay,
            listener,
            false,
        ),
        ReservationDecision::Failed(EndpointError::SelectedConnectionLost)
    ));
    assert!(matches!(
        reservation_decision(
            &EndpointEvent::ReservationClosed(listener),
            &relay,
            listener,
            true,
        ),
        ReservationDecision::Failed(EndpointError::ReservationClosed)
    ));
    assert!(matches!(
        reservation_decision(
            &EndpointEvent::Closed {
                peer,
                connection: relay.binding().connection(),
            },
            &relay,
            listener,
            true,
        ),
        ReservationDecision::Failed(EndpointError::SelectedConnectionLost)
    ));
    for event in [
        EndpointEvent::ReservationReady(other),
        EndpointEvent::ReservationClosed(other),
        EndpointEvent::DialFailed(ConnectionId(81)),
    ] {
        assert!(matches!(
            reservation_decision(&event, &relay, listener, true),
            ReservationDecision::Continue
        ));
    }
}

#[test]
fn selection_event_helpers_cover_accept_reject_ping_close_and_ignore() {
    let peer = PEER;
    let other = OTHER;
    let offered = process_relay_selection_event(peer, established(peer, 90));
    assert_eq!(offered, SelectionOrder::Offer(ConnectionId(90)));
    assert!(settle_selection_order(offered, true).candidate);
    let ping = EndpointEvent::Ping {
        peer,
        connection: ConnectionId(90),
        round_trip: Some(MILLISECOND),
    };
    let measured = process_relay_selection_event(peer, ping);
    assert_eq!(
        measured,
        SelectionOrder::Measure(ConnectionId(90), MILLISECOND)
    );
    assert!(!settle_selection_order(measured, true).candidate);
    let closed = EndpointEvent::Closed {
        peer,
        connection: ConnectionId(90),
    };
    let withdrawn = process_relay_selection_event(peer, closed);
    assert_eq!(withdrawn, SelectionOrder::Withdraw(ConnectionId(90)));
    assert!(!settle_selection_order(withdrawn, true).candidate);
    assert_eq!(
        process_relay_selection_event(peer, EndpointEvent::DialFailed(ConnectionId(90))),
        SelectionOrder::Ignore
    );
    assert_eq!(
        process_relay_selection_event(peer, established(other, 91)),
        SelectionOrder::Ignore
    );
    let refused = settle_selection_order(
        process_relay_selection_event(peer, established(peer, 94)),
        false,
    );
    assert!(!refused.candidate);
    assert_eq!(refused.close, Some(ConnectionId(94)));

    assert_eq!(
        process_target_selection_event(peer, established(peer, 100), true),
        SelectionOrder::Offer(ConnectionId(100))
    );
    let ping = EndpointEvent::Ping {
        peer,
        connection: ConnectionId(100),
        round_trip: Some(MILLISECOND),
    };
    assert_eq!(
        process_target_selection_event(peer, ping, true),
        SelectionOrder::Measure(ConnectionId(100), MILLISECOND)
    );
    assert_eq!(
        process_target_selection_event(peer, ping, false),
        SelectionOrder::Ignore
    );
    let closed = EndpointEvent::Closed {
        peer,
        connection: ConnectionId(100),
    };
    assert_eq!(
        process_target_selection_event(peer, closed, true),
        SelectionOrder::Withdraw(ConnectionId(100))
    );
    let failed = EndpointEvent::Ping {
        peer,
        connection: ConnectionId(100),
        round_trip: None,
    };
    assert_eq!(
        process_target_selection_event(peer, failed, true),
        SelectionOrder::Ignore
    );
}

#[test]
fn selected_relay_address_is_canonical_and_bound_to_the_winner() {
    let peer = PEER;
    let loser = ConnectionId(110);
    let winner = ConnectionId(111);
    let selected = selected_relay_address(
        vec![
            (loser, Some("/ip4/192.0.2.1/tcp/1".to_owned())),
            (winner, Some("/ip4/192.0.2.2/tcp/2".to_owned())),
        ],
        winner,
    )
    .unwrap();
    assert_eq!(selected, "/ip4/192.0.2.2/tcp/2");
    assert!(matches!(
        selected_relay_address(vec![(winner, None)], winner),
        Err(EndpointError::InvalidSelectedAddress)
    ));
    assert!(matches!(
        selected_relay_address(Vec::new(), winner),
        Err(EndpointError::InvalidSelectedAddress)
    ));

    let first = ConnectionId(112);
    let second = ConnectionId(113);
    let (selected, losers) = finish_relay_selection(
        Some(SelectionOutcome {
            winner: first,
            losers: vec![second],
        }),
        vec![
            (first, Some("/ip4/192.0.2.1/tcp/112".to_owned())),
            (second, Some("/ip4/192.0.2.1/tcp/113".to_owned())),
        ],
        peer,
    );
    assert_eq!(selected.unwrap().peer(), peer);
    assert_eq!(losers, vec![second]);
}

#[test]
fn established_roster_overflow_and_drain_event_are_bounded() {
    let mut driver = endpoint_driver();
    let peer = PEER;
    for connection in 200..208 {
        assert!(driver
            .record_established(peer, ConnectionId(connection), false)
            .event
            .is_some());
    }
    let step = driver.record_established(peer, ConnectionId(208), false);
    assert!(step.event.is_none());
    assert_eq!(step.close, Some(ConnectionId(208)));

    let binding = ConnectionBinding {
        peer,
        connection: ConnectionId(200),
    };
    assert!(matches!(
        relay_drain_event(
            &EndpointEvent::Closed {
                peer,
                connection: binding.connection(),
            },
            Some(binding),
        ),
        Err(EndpointError::SelectedConnectionLost)
    ));
    assert!(relay_drain_event(
        &EndpointEvent::DialFailed(ConnectionId(209)),
        Some(binding),
    )
    .is_ok());
}

#[test]
fn bound_event_and_output_helpers_recheck_the_exact_roster() {
    let mut driver = endpoint_driver();
    let peer = PEER;
    let connection = ConnectionId(120);
    driver.connections.established(peer, connection).unwrap();
    let binding = ConnectionBinding { peer, connection };
    assert_eq!(finish_bound_output(&driver, binding, 5).0.unwrap(), 5);
    let ping = EndpointEvent::Ping {
        peer,
        connection,
        round_trip: Some(0),
    };
    enforce_binding_after_event(&driver, binding, &ping)
        .result
        .unwrap();

    driver
        .connections
        .established(peer, ConnectionId(121))
        .unwrap();
    assert!(matches!(
        enforce_binding_after_event(&driver, binding, &established(peer, 121)).result,
        Err(EndpointError::AdditionalBoundConnection)
    ));
    driver.connections.closed(peer, connection);
    driver.connections.closed(peer, ConnectionId(121));
    assert!(matches!(
        enforce_binding_after_event(
            &driver,
            binding,
            &EndpointEvent::Closed { peer, connection },
        )
        .result,
        Err(EndpointError::BoundConnectionLost)
    ));
    assert!(matches!(
        finish_bound_output(&driver, binding, 7).0,
        Err(EndpointError::BoundConnectionLost)
    ));
}

#[test]
fn node_events_move_the_roster_the_reservation_and_the_upgrades() {
    let mut driver = endpoint_driver();
    let connection = ConnectionId(1);
    let step = driver.next(NodeEvent::ConnectionEstablished {
        peer: PEER,
        connection,
        relayed: true,
    });
    assert!(matches!(step.event, Some(EndpointEvent::Established { .. })));
    assert_eq!(driver.direct_upgrades.outcome(PEER), None);
    assert!(!driver.direct_upgrade_ready(PEER));
    assert_eq!(wait_for_target_quiescence(&driver, PEER), None);
    driver.next(NodeEvent::DirectUpgrade {
        peer: PEER,
        connected: None,
    });
    assert!(driver.direct_upgrade_ready(PEER));
    assert_eq!(
        wait_for_target_quiescence(&driver, PEER),
        Some(ConnectionBinding {
            peer: PEER,
            connection
        })
    );
    let step = driver.next(NodeEvent::ConnectionClosed {
        peer: PEER,
        connection,
    });
    assert!(matches!(step.event, Some(EndpointEvent::Closed { .. })));
    assert_eq!(driver.connection_count(PEER), 0);
    assert!(!driver.direct_upgrade_ready(PEER));

    let listener = driver.reserve(Ok(ListenerId(9))).unwrap();
    assert!(!driver.reservation_is_ready(listener));
    let step = driver.next(NodeEvent::NewListenAddr(ListenerId(8)));
    assert_eq!(step.event, None);
    let step = driver.next(NodeEvent::NewListenAddr(ListenerId(9)));
    assert_eq!(step.event, Some(EndpointEvent::ReservationReady(listener)));
    assert!(driver.reservation_is_ready(listener));
    let step = driver.next(NodeEvent::ListenerClosed(ListenerId(9)));
    assert_eq!(step.event, Some(EndpointEvent::ReservationClosed(listener)));
    assert!(!driver.reservation_is_ready(listener));
    assert_eq!(driver.next(NodeEvent::ListenerError).event, None);
    assert_eq!(driver.next(NodeEvent::ReservationAccepted).event, None);
    assert_eq!(driver.next(NodeEvent::Other).event, None);

    driver.pending_relay_dials.insert(ConnectionId(4)).unwrap();
    let step = driver.next(NodeEvent::OutgoingConnectionError {
        connection: ConnectionId(4),
    });
    assert_eq!(
        step.event,
        Some(EndpointEvent::DialFailed(ConnectionId(4)))
    );
    assert!(driver.pending_relay_dials.is_empty());
}

#[test]
fn connection_book_keeps_peers_apart_and_in_order() {
    let mut book = ConnectionBook::new();
    for connection in [3, 1, 2] {
        book.established(PEER, ConnectionId(connection)).unwrap();
    }
    book.established(OTHER, ConnectionId(1)).unwrap();
    assert_eq!(
        book.connections(PEER),
        vec![ConnectionId(3), ConnectionId(1), ConnectionId(2)]
    );
    assert_eq!(book.unique(PEER), None);
    assert_eq!(book.unique(OTHER), Some(ConnectionId(1)));
    book.closed(PEER, ConnectionId(1));
    assert_eq!(
        book.connections(PEER),
        vec![ConnectionId(3), ConnectionId(2)]
    );
    assert!(book.contains(OTHER, ConnectionId(1)));
    for connection in 10..16 {
        book.established(PEER, ConnectionId(connection)).unwrap();
    }
    assert_eq!(book.count(PEER), CONNECTION_CAPACITY);
    assert!(book.established(PEER, ConnectionId(20)).is_err());
}

#[test]
fn a_binding_is_bound_lost_or_ambiguous() {
    let mut driver = endpoint_driver();
    let binding = ConnectionBinding {
        peer: PEER,
        connection: ConnectionId(1),
    };
    assert_eq!(driver.binding_state(binding), BindingState::Lost);
    driver
        .connections
        .established(PEER, ConnectionId(2))
        .unwrap();
    assert_eq!(driver.binding_state(binding), BindingState::Ambiguous);
    assert_eq!(
        driver.close_connections_except(binding),
        vec![ConnectionId(2)]
    );
    driver.connections.closed(PEER, ConnectionId(2));
    driver
        .connections
        .established(PEER, ConnectionId(1))
        .unwrap();
    assert_eq!(driver.binding_state(binding), BindingState::Bound);
    assert!(driver.validate_binding(binding).is_ok());
}

#[test]
fn a_relay_attempt_collects_candidates_for_one_window() {
    let now = 100 * SECOND;
    let (deadline, connect) = relay_deadlines(now);
    assert_eq!(deadline, now + CONNECT_TIMEOUT);
    assert_eq!(connect, now + CONNECT_TIMEOUT - RELAY_DRAIN_WINDOW);
    let mut attempt = RelayAttempt::new(now, connect, true);
    assert_eq!(attempt.plan(true), RelayPlan::WaitUntil(connect));
    attempt.observe(true, true, now + SECOND);
    assert_eq!(
        attempt.plan(true),
        RelayPlan::WaitUntil(now + SECOND + SELECTION_WINDOW)
    );
    attempt.observe(true, true, now + 2 * SECOND);
    assert_eq!(
        attempt.plan(true),
        RelayPlan::WaitUntil(now + SECOND + SELECTION_WINDOW)
    );
    assert_eq!(
        attempt.expired(now + SECOND + SELECTION_WINDOW),
        RelayExpiry::Choose
    );

    let mut silent = RelayAttempt::new(now, connect, true);
    assert_eq!(
        silent.expired(connect),
        RelayExpiry::Fail(EndpointError::RelayUnavailable)
    );
}

#[test]
fn a_target_attempt_waits_for_the_upgrade_before_it_chooses() {
    let now = 50 * SECOND;
    let deadline = now + TARGET_SETTLE_TIMEOUT;
    let mut attempt = TargetAttempt::new(PEER, deadline, DirectUpgradePolicy::Enabled);
    let relayed = EndpointEvent::Established {
        peer: PEER,
        connection: ConnectionId(1),
        relayed: true,
    };
    assert_eq!(
        attempt.order(relayed),
        SelectionOrder::Offer(ConnectionId(1))
    );
    assert_eq!(attempt.observe(relayed, true, false, now), TargetPlan::Wait);
    assert_eq!(attempt.deadline(), now + TARGET_SELECTION_WINDOW);
    assert_eq!(attempt.expired(false), TargetPlan::Wait);
    assert_eq!(attempt.deadline(), deadline);
    assert_eq!(attempt.upgrade(None), None);
    let direct = EndpointEvent::DirectUpgradeFinished {
        peer: PEER,
        outcome: DirectUpgradeOutcome::Connected(ConnectionId(2)),
    };
    assert_eq!(attempt.upgrade(Some(direct)), Some(ConnectionId(2)));
    assert_eq!(
        attempt.observe(direct, false, false, now + SECOND),
        TargetPlan::Wait
    );
    assert_eq!(attempt.upgrade(None), Some(ConnectionId(2)));
    let finished = EndpointEvent::DirectUpgradeFinished {
        peer: PEER,
        outcome: DirectUpgradeOutcome::Failed,
    };
    assert_eq!(
        attempt.observe(finished, false, false, now + SECOND),
        TargetPlan::Choose
    );
}

#[test]
fn a_failed_drain_hides_a_chosen_relay() {
    let relay = relay_connection(PEER, 1);
    let kept = configured_relay_result(Ok(relay), Ok(()));
    assert_eq!(kept.unwrap().peer(), PEER);
    let drained = configured_relay_result(
        Ok(relay_connection(PEER, 1)),
        Err(EndpointError::RelayDidNotConverge),
    );
    assert_eq!(drained.unwrap_err(), EndpointError::RelayDidNotConverge);
    assert_eq!(
        convergence_deadline(10 * SECOND, 11 * SECOND),
        11 * SECOND
    );
    assert_eq!(
        convergence_deadline(10 * SECOND, 60 * SECOND),
        10 * SECOND + CONVERGENCE_TIMEOUT
    );
}

#[test]
fn a_redial_waits_for_the_policy_delay() {
    let now = 100 * SECOND;
    let attempt = RelayAttempt::new(now, now + CONNECT_TIMEOUT, false);
    let RelayPlan::WaitUntil(first) = attempt.plan(false) else {
        panic!("a redial is scheduled");
    };
    assert!(first >= now + RELAY_BACKOFF_MIN && first < now + 2 * RELAY_BACKOFF_MIN);

    let mut attempt = attempt;
    assert_eq!(attempt.expired(first), RelayExpiry::Redial);
    attempt.observe(false, false, first);
    let RelayPlan::WaitUntil(second) = attempt.plan(false) else {
        panic!("another redial is scheduled");
    };
    assert!(second >= first + 2 * RELAY_BACKOFF_MIN && second < first + 4 * RELAY_BACKOFF_MIN);
}
