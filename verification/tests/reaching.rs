use yon::connecting::{DirectUpgradePolicy, SelectionOrder, SelectionOutcome, Waited};
use yon::network::{
    ConnectionBinding, ConnectionId, DirectUpgradeOutcome, EndpointDriver, EndpointError,
    EndpointEvent, NodeEvent, PeerId, RelayConnection, CONNECT_TIMEOUT, CONVERGENCE_TIMEOUT,
    RELAY_DRAIN_WINDOW, SECOND, TARGET_SELECTION_WINDOW, TARGET_SETTLE_TIMEOUT,
};
use yon::reaching::{
    QuiescenceAction, RelayAction, RelayConnecting, TargetAction, TargetConnecting, TargetPhase,
    TargetQuiescence,
};

const LOCAL: PeerId = PeerId(1);
const PEER: PeerId = PeerId(2);
const FIRST: ConnectionId = ConnectionId(10);
const SECOND_PATH: ConnectionId = ConnectionId(11);

fn established(driver: &mut EndpointDriver, connection: ConnectionId, relayed: bool) -> Waited {
    let event = NodeEvent::ConnectionEstablished {
        peer: PEER,
        connection,
        relayed,
    };
    Waited::Event(driver.next(event).event.unwrap())
}

fn closed(driver: &mut EndpointDriver, connection: ConnectionId) -> Waited {
    let event = NodeEvent::ConnectionClosed {
        peer: PEER,
        connection,
    };
    Waited::Event(driver.next(event).event.unwrap())
}

fn upgraded(driver: &mut EndpointDriver, connected: Option<ConnectionId>) -> Waited {
    let event = NodeEvent::DirectUpgrade {
        peer: PEER,
        connected,
    };
    Waited::Event(driver.next(event).event.unwrap())
}

#[test]
fn a_target_is_reached_once_only_the_winner_is_left() {
    let now = 5 * SECOND;
    let mut driver = EndpointDriver::new(LOCAL);
    let (mut way, step) = TargetConnecting::new(PEER, now, DirectUpgradePolicy::Enabled);
    assert!(step.close.is_empty());
    assert_eq!(step.action, TargetAction::Wait(now + TARGET_SETTLE_TIMEOUT));

    let waited = established(&mut driver, FIRST, true);
    let step = way.observe(&driver, waited, true, false, now);
    assert_eq!(step.action, TargetAction::Wait(now + TARGET_SELECTION_WINDOW));
    let waited = established(&mut driver, SECOND_PATH, false);
    let event = EndpointEvent::Established {
        peer: PEER,
        connection: SECOND_PATH,
        relayed: false,
    };
    assert_eq!(way.order(event), SelectionOrder::Offer(SECOND_PATH));
    way.observe(&driver, waited, true, false, now);
    let waited = upgraded(&mut driver, Some(SECOND_PATH));
    let step = way.observe(&driver, waited, false, true, now);
    assert_eq!(step.action, TargetAction::Wait(now + TARGET_SELECTION_WINDOW));
    assert_eq!(way.upgrade(None), Some(SECOND_PATH));
    let step = way.observe(&driver, Waited::Expired, false, true, now + SECOND);
    assert_eq!(step.action, TargetAction::Choose);
    assert_eq!(way.phase(), TargetPhase::Choosing);

    let chosen = SelectionOutcome {
        winner: SECOND_PATH,
        losers: vec![FIRST],
    };
    let step = way.conclude(&driver, Some(chosen), now + SECOND);
    assert_eq!(step.close, [FIRST, FIRST]);
    let deadline = now + SECOND + CONVERGENCE_TIMEOUT;
    assert_eq!(step.action, TargetAction::Wait(deadline));
    assert_eq!(way.order(event), SelectionOrder::Ignore);
    let waited = closed(&mut driver, FIRST);
    let step = way.observe(&driver, waited, false, true, now + SECOND);
    let binding = ConnectionBinding {
        peer: PEER,
        connection: SECOND_PATH,
    };
    assert_eq!(step.action, TargetAction::Finish(Ok(binding)));
    assert_eq!(way.phase(), TargetPhase::Finished);
}

#[test]
fn a_failed_upgrade_closes_the_target_before_it_is_reported() {
    let now = SECOND;
    let mut driver = EndpointDriver::new(LOCAL);
    let (mut way, _) = TargetConnecting::new(PEER, now, DirectUpgradePolicy::Enabled);
    let waited = established(&mut driver, FIRST, true);
    way.observe(&driver, waited, true, false, now);
    let waited = upgraded(&mut driver, None);
    way.observe(&driver, waited, false, false, now);
    let step = way.observe(&driver, Waited::Expired, false, false, now);
    assert_eq!(step.close, [FIRST]);
    assert_eq!(step.action, TargetAction::Wait(now + CONVERGENCE_TIMEOUT));
    let waited = closed(&mut driver, FIRST);
    let step = way.observe(&driver, waited, false, false, now);
    assert_eq!(
        step.action,
        TargetAction::Finish(Err(EndpointError::DirectUpgradeFailed))
    );
}

#[test]
fn a_failed_upgrade_does_not_matter_where_it_is_disabled() {
    let mut driver = EndpointDriver::new(LOCAL);
    let (mut way, _) = TargetConnecting::new(PEER, 0, DirectUpgradePolicy::Disabled);
    let waited = established(&mut driver, FIRST, true);
    way.observe(&driver, waited, true, false, 0);
    let waited = upgraded(&mut driver, None);
    way.observe(&driver, waited, false, false, 0);
    let step = way.observe(&driver, Waited::Expired, false, false, 0);
    assert_eq!(step.action, TargetAction::Choose);
    let chosen = SelectionOutcome {
        winner: FIRST,
        losers: Vec::new(),
    };
    let step = way.conclude(&driver, Some(chosen), 0);
    let binding = ConnectionBinding {
        peer: PEER,
        connection: FIRST,
    };
    assert_eq!(step.action, TargetAction::Finish(Ok(binding)));
}

#[test]
fn a_target_out_of_time_is_closed_or_was_never_there() {
    let mut driver = EndpointDriver::new(LOCAL);
    let (mut silent, _) = TargetConnecting::new(PEER, 0, DirectUpgradePolicy::Enabled);
    let step = silent.observe(&driver, Waited::Expired, false, false, 0);
    assert_eq!(
        step.action,
        TargetAction::Finish(Err(EndpointError::RelayUnavailable))
    );

    let (mut way, _) = TargetConnecting::new(PEER, 0, DirectUpgradePolicy::Enabled);
    let waited = established(&mut driver, FIRST, true);
    way.observe(&driver, waited, true, false, 0);
    way.observe(&driver, Waited::Expired, false, false, 0);
    let step = way.observe(&driver, Waited::Expired, false, false, 0);
    assert_eq!(step.close, [FIRST]);
    let step = way.observe(&driver, Waited::Expired, false, false, 0);
    assert_eq!(
        step.action,
        TargetAction::Finish(Err(EndpointError::ConnectionCloseDidNotConverge))
    );

    let (mut way, _) = TargetConnecting::new(PEER, 0, DirectUpgradePolicy::Enabled);
    let again = EndpointEvent::Established {
        peer: PEER,
        connection: FIRST,
        relayed: true,
    };
    way.observe(&driver, Waited::Event(again), true, false, 0);
    way.observe(&driver, Waited::Expired, false, false, 0);
    way.observe(&driver, Waited::Expired, false, false, 0);
    let waited = closed(&mut driver, FIRST);
    let step = way.observe(&driver, waited, false, false, 0);
    assert_eq!(
        step.action,
        TargetAction::Finish(Err(EndpointError::TargetUpgradeDidNotSettle))
    );
}

#[test]
fn a_choice_can_come_to_nothing() {
    let choosing = |driver: &mut EndpointDriver| {
        let (mut way, _) = TargetConnecting::new(PEER, 0, DirectUpgradePolicy::Enabled);
        let waited = established(driver, FIRST, true);
        way.observe(driver, waited, true, false, 0);
        let outcome = EndpointEvent::DirectUpgradeFinished {
            peer: PEER,
            outcome: DirectUpgradeOutcome::Connected(FIRST),
        };
        way.observe(driver, Waited::Event(outcome), false, true, 0);
        let step = way.observe(driver, Waited::Expired, false, true, 0);
        assert_eq!(step.action, TargetAction::Choose);
        way
    };
    let mut driver = EndpointDriver::new(LOCAL);
    let step = choosing(&mut driver).conclude(&driver, None, 0);
    assert_eq!(
        step.action,
        TargetAction::Finish(Err(EndpointError::RelayUnavailable))
    );
    let gone = SelectionOutcome {
        winner: SECOND_PATH,
        losers: Vec::new(),
    };
    let step = choosing(&mut driver).conclude(&driver, Some(gone), 0);
    assert_eq!(
        step.action,
        TargetAction::Finish(Err(EndpointError::SelectedConnectionLost))
    );
    established(&mut driver, SECOND_PATH, false);
    let first = SelectionOutcome {
        winner: FIRST,
        losers: Vec::new(),
    };
    let mut way = choosing(&mut driver);
    let step = way.conclude(&driver, Some(first), 0);
    assert_eq!(step.close, [SECOND_PATH]);
    let step = way.observe(&driver, Waited::Expired, false, true, 0);
    assert_eq!(
        step.action,
        TargetAction::Finish(Err(EndpointError::RelayDidNotConverge))
    );
}

fn relay_connection(connection: ConnectionId) -> RelayConnection {
    RelayConnection {
        binding: ConnectionBinding {
            peer: PEER,
            connection,
        },
        address: "/dns4/relay.example/tcp/4001".to_owned(),
    }
}

#[test]
fn a_relay_is_reached_between_two_drains() {
    let mut driver = EndpointDriver::new(LOCAL);
    established(&mut driver, FIRST, false);
    let (mut way, step) = RelayConnecting::new(&driver, PEER, 0);
    assert_eq!(step.close, [FIRST]);
    assert_eq!(step.action, RelayAction::Wait(CONNECT_TIMEOUT));
    let waited = closed(&mut driver, FIRST);
    let step = way.observe(&driver, waited);
    let until = CONNECT_TIMEOUT - RELAY_DRAIN_WINDOW;
    assert_eq!(step.action, RelayAction::Attempt(until));

    established(&mut driver, FIRST, false);
    established(&mut driver, SECOND_PATH, false);
    let step = way.attempted(&driver, Ok(relay_connection(SECOND_PATH)));
    assert_eq!(step.close, [FIRST]);
    assert_eq!(step.action, RelayAction::Wait(CONNECT_TIMEOUT));
    let waited = closed(&mut driver, FIRST);
    let step = way.observe(&driver, waited);
    assert_eq!(
        step.action,
        RelayAction::Finish(Ok(relay_connection(SECOND_PATH)))
    );
}

#[test]
fn a_failed_attempt_is_reported_after_its_drain() {
    let mut driver = EndpointDriver::new(LOCAL);
    let (mut way, step) = RelayConnecting::new(&driver, PEER, 0);
    assert!(matches!(step.action, RelayAction::Attempt(_)));
    established(&mut driver, FIRST, false);
    let step = way.attempted(&driver, Err(EndpointError::RelayUnavailable));
    assert_eq!(step.close, [FIRST]);
    let waited = closed(&mut driver, FIRST);
    let step = way.observe(&driver, waited);
    assert_eq!(
        step.action,
        RelayAction::Finish(Err(EndpointError::RelayUnavailable))
    );
}

#[test]
fn a_drain_that_fails_outweighs_the_attempt() {
    let mut driver = EndpointDriver::new(LOCAL);
    let (mut way, _) = RelayConnecting::new(&driver, PEER, 0);
    established(&mut driver, FIRST, false);
    way.attempted(&driver, Err(EndpointError::RelayUnavailable));
    let step = way.observe(&driver, Waited::Expired);
    assert_eq!(
        step.action,
        RelayAction::Finish(Err(EndpointError::RelayDidNotConverge))
    );

    let (mut way, _) = RelayConnecting::new(&EndpointDriver::new(LOCAL), PEER, 0);
    established(&mut driver, SECOND_PATH, false);
    way.attempted(&driver, Ok(relay_connection(SECOND_PATH)));
    let waited = closed(&mut driver, SECOND_PATH);
    let step = way.observe(&driver, waited);
    assert_eq!(
        step.action,
        RelayAction::Finish(Err(EndpointError::SelectedConnectionLost))
    );
}

#[test]
fn an_inbound_target_settles_or_is_closed() {
    let mut driver = EndpointDriver::new(LOCAL);
    established(&mut driver, FIRST, true);
    let (mut wait, step) = TargetQuiescence::new(&driver, PEER, 0);
    assert_eq!(step.action, QuiescenceAction::Wait(TARGET_SETTLE_TIMEOUT));
    let waited = upgraded(&mut driver, None);
    let step = wait.observe(&driver, waited, SECOND);
    let binding = ConnectionBinding {
        peer: PEER,
        connection: FIRST,
    };
    assert_eq!(step.action, QuiescenceAction::Finish(Ok(binding)));
    let (_, step) = TargetQuiescence::new(&driver, PEER, 0);
    assert_eq!(step.action, QuiescenceAction::Finish(Ok(binding)));

    established(&mut driver, SECOND_PATH, false);
    let (mut wait, _) = TargetQuiescence::new(&driver, PEER, 0);
    let step = wait.observe(&driver, Waited::Expired, SECOND);
    assert_eq!(step.close, [FIRST, SECOND_PATH]);
    let deadline = SECOND + CONVERGENCE_TIMEOUT;
    assert_eq!(step.action, QuiescenceAction::Wait(deadline));
    let waited = closed(&mut driver, FIRST);
    let step = wait.observe(&driver, waited, SECOND);
    assert_eq!(step.close, [SECOND_PATH]);
    let waited = closed(&mut driver, SECOND_PATH);
    let step = wait.observe(&driver, waited, SECOND);
    assert_eq!(
        step.action,
        QuiescenceAction::Finish(Err(EndpointError::TargetUpgradeDidNotSettle))
    );

    established(&mut driver, FIRST, true);
    let (mut wait, _) = TargetQuiescence::new(&driver, PEER, 0);
    wait.observe(&driver, Waited::Expired, 0);
    let step = wait.observe(&driver, Waited::Expired, 0);
    assert_eq!(
        step.action,
        QuiescenceAction::Finish(Err(EndpointError::ConnectionCloseDidNotConverge))
    );
}
