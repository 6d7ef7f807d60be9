//! Reaching the relay and the target: racing the configured transports,
//! choosing one connection, and closing the rest.
//!
//! Each attempt is a machine. It says until when to wait and what to do with
//! an event; the swarm, the clock and the quality measurement live outside.

use crate::backoff::{relay_backoff, RelayBackoff};
use crate::network::{
    BindingState, ConnectionBinding, ConnectionId, DirectUpgradeOutcome, EndpointDriver,
    EndpointError, EndpointEvent, PeerId, RelayConnection, ReservationListenerId,
    CONNECTION_CAPACITY, CONNECT_TIMEOUT, CONVERGENCE_TIMEOUT, RELAY_BACKOFF_MAX,
    RELAY_DIAL_WINDOW, RELAY_DRAIN_WINDOW, SELECTION_WINDOW, TARGET_SELECTION_WINDOW,
};
use vstd::prelude::*;

verus! {

/// The earlier of two moments.
pub open spec fn earlier(a: u64, b: u64) -> u64 {
    if a <= b {
        a
    } else {
        b
    }
}

fn earlier_of(a: u64, b: u64) -> (moment: u64)
    ensures
        moment == earlier(a, b),
{
    if a <= b {
        a
    } else {
        b
    }
}

// ---------------------------------------------------------------------------
// Candidates
// ---------------------------------------------------------------------------

/// What an event means for the selection among candidate connections.
#[derive(Debug, Clone, Copy, PartialEq, Eq, Structural)]
pub enum SelectionOrder {
    /// Offer the connection as a candidate.
    Offer(ConnectionId),
    /// Add a round trip, in nanoseconds, to the candidate's quality.
    Measure(ConnectionId, u64),
    /// Withdraw the candidate.
    Withdraw(ConnectionId),
    /// Nothing.
    Ignore,
}

/// What an event of a candidate of `peer` means; round trips only count while
/// quality is being collected.
pub open spec fn selection_order(
    peer: PeerId,
    event: EndpointEvent,
    collect_quality: bool,
) -> SelectionOrder {
    match event {
        EndpointEvent::Established { peer: from, connection, .. } if from == peer => {
            SelectionOrder::Offer(connection)
        },
        EndpointEvent::Ping { peer: from, connection, round_trip: Some(round_trip) } if from == peer
            && collect_quality => { SelectionOrder::Measure(connection, round_trip) },
        EndpointEvent::Closed { peer: from, connection } if from == peer => {
            SelectionOrder::Withdraw(connection)
        },
        _ => SelectionOrder::Ignore,
    }
}

/// What an event means while relay candidates are collected.
pub fn process_relay_selection_event(relay_peer: PeerId, event: EndpointEvent) -> (order:
    SelectionOrder)
    ensures
        order == selection_order(relay_peer, event, true),
{
    process_target_selection_event(relay_peer, event, true)
}

/// What an event means while target candidates are collected. Round trips only
/// count until the selection window has elapsed.
pub fn process_target_selection_event(
    target: PeerId,
    event: EndpointEvent,
    collect_quality: bool,
) -> (order: SelectionOrder)
    ensures
        order == selection_order(target, event, collect_quality),
{
    match event {
        EndpointEvent::Established { peer, connection, .. } => {
            if peer == target {
                SelectionOrder::Offer(connection)
            } else {
                SelectionOrder::Ignore
            }
        },
        EndpointEvent::Ping { peer, connection, round_trip } => {
            match round_trip {
                Some(round_trip) => {
                    if peer == target && collect_quality {
                        SelectionOrder::Measure(connection, round_trip)
                    } else {
                        SelectionOrder::Ignore
                    }
                },
                None => SelectionOrder::Ignore,
            }
        },
        EndpointEvent::Closed { peer, connection } => {
            if peer == target {
                SelectionOrder::Withdraw(connection)
            } else {
                SelectionOrder::Ignore
            }
        },
        _ => SelectionOrder::Ignore,
    }
}

/// Every connection of the peer becomes a candidate when it is established, relayed
/// or not, and stops being one when it is closed; whether quality is still being
/// collected has no say in either.
pub proof fn law_connections_of_the_peer_are_candidates(
    peer: PeerId,
    connection: ConnectionId,
    relayed: bool,
    collect_quality: bool,
)
    ensures
        selection_order(
            peer,
            EndpointEvent::Established { peer, connection, relayed },
            collect_quality,
        ) == SelectionOrder::Offer(connection),
        selection_order(peer, EndpointEvent::Closed { peer, connection }, collect_quality)
            == SelectionOrder::Withdraw(connection),
{
}

/// A round trip counts for the connection that it was measured on, as it was measured,
/// exactly while quality is being collected.
pub proof fn law_round_trips_count_while_quality_is_collected(
    peer: PeerId,
    connection: ConnectionId,
    round_trip: u64,
    collect_quality: bool,
)
    ensures
        ({
            let event = EndpointEvent::Ping { peer, connection, round_trip: Some(round_trip) };
            let order = selection_order(peer, event, collect_quality);
            &&& collect_quality <==> order == SelectionOrder::Measure(connection, round_trip)
            &&& !collect_quality <==> order == SelectionOrder::Ignore
        }),
        selection_order(
            peer,
            EndpointEvent::Ping { peer, connection, round_trip: None },
            collect_quality,
        ) == SelectionOrder::Ignore,
{
}

/// An order always comes of an event of the peer: every other one is ignored.
pub proof fn law_other_events_leave_the_selection_alone(
    peer: PeerId,
    event: EndpointEvent,
    collect_quality: bool,
)
    requires
        match event {
            EndpointEvent::Established { peer: from, .. } => from != peer,
            EndpointEvent::Closed { peer: from, .. } => from != peer,
            EndpointEvent::Ping { peer: from, .. } => from != peer,
            _ => true,
        },
    ensures
        selection_order(peer, event, collect_quality) == SelectionOrder::Ignore,
{
}

/// What came of an order: whether a candidate was gained, and the connection to
/// close when the selection refused it.
#[derive(Debug, Clone, Copy, PartialEq, Eq, Structural)]
pub struct OrderResult {
    pub candidate: bool,
    pub close: Option<ConnectionId>,
}

/// What comes of an order, where `accepted` says whether the selection took the offer.
pub open spec fn settled_order(order: SelectionOrder, accepted: bool) -> OrderResult {
    match order {
        SelectionOrder::Offer(connection) => OrderResult {
            candidate: accepted,
            close: if accepted {
                None
            } else {
                Some(connection)
            },
        },
        _ => OrderResult { candidate: false, close: None },
    }
}

/// An offer is either a candidate or closed, never both and never neither; nothing else
/// gains a candidate or closes a connection.
pub proof fn law_an_offer_is_a_candidate_or_closed(order: SelectionOrder, accepted: bool)
    ensures
        ({
            let result = settled_order(order, accepted);
            &&& order matches SelectionOrder::Offer(connection) ==> {
                &&& result.candidate <==> accepted
                &&& result.close == Some(connection) <==> !accepted
                &&& result.close is None <==> accepted
            }
            &&& !(order is Offer) ==> !result.candidate && result.close is None
        }),
{
}

/// Settles an order; `accepted` says whether the selection took the offer.
pub fn settle_selection_order(order: SelectionOrder, accepted: bool) -> (result: OrderResult)
    ensures
        result == settled_order(order, accepted),
{
    match order {
        SelectionOrder::Offer(connection) => {
            if accepted {
                OrderResult { candidate: true, close: None }
            } else {
                OrderResult { candidate: false, close: Some(connection) }
            }
        },
        _ => OrderResult { candidate: false, close: None },
    }
}

/// The winner of a selection and the candidates that lost.
#[derive(Debug, PartialEq, Eq)]
pub struct SelectionOutcome {
    pub winner: ConnectionId,
    pub losers: Vec<ConnectionId>,
}

/// The place of the first address that belongs to `winner` and is canonical.
pub open spec fn winning_place(
    addresses: Seq<(ConnectionId, Option<String>)>,
    winner: ConnectionId,
    place: int,
) -> bool {
    &&& 0 <= place < addresses.len()
    &&& addresses[place].0 == winner
    &&& addresses[place].1 is Some
    &&& forall|i: int|
        0 <= i < place ==> !(#[trigger] addresses[i].0 == winner && addresses[i].1 is Some)
}

/// The canonical address of the winner. Each candidate comes with its remote
/// address in canonical form, if it has one.
pub fn selected_relay_address(
    addresses: Vec<(ConnectionId, Option<String>)>,
    winner: ConnectionId,
) -> (result: Result<String, EndpointError>)
    ensures
        match result {
            Ok(address) => exists|place: int|
                #[trigger] winning_place(addresses@, winner, place) && addresses@[place].1 == Some(
                    address,
                ),
            Err(error) => error == EndpointError::InvalidSelectedAddress && forall|place: int|
                !#[trigger] winning_place(addresses@, winner, place),
        },
{
    let mut index: usize = 0;
    while index < addresses.len()
        invariant
            index <= addresses.len(),
            forall|i: int|
                0 <= i < index ==> !(#[trigger] addresses@[i].0 == winner && addresses@[i].1
                    is Some),
        ensures
            index <= addresses.len(),
            forall|i: int|
                0 <= i < index ==> !(#[trigger] addresses@[i].0 == winner && addresses@[i].1
                    is Some),
            index < addresses.len() ==> winning_place(addresses@, winner, index as int),
        decreases addresses.len() - index,
    {
        if addresses[index].0 == winner && addresses[index].1.is_some() {
            break;
        }
        index += 1;
    }
    if index < addresses.len() {
        let ghost all = addresses@;
        let mut addresses = addresses;
        let (_, address) = addresses.remove(index);
        if let Some(address) = address {
            assert(winning_place(all, winner, index as int));
            return Ok(address);
        }
    }
    Err(EndpointError::InvalidSelectedAddress)
}

/// Turns a finished relay selection into the relay connection. The losers have
/// to be closed whatever comes of the winner.
pub fn finish_relay_selection(
    selection: Option<SelectionOutcome>,
    addresses: Vec<(ConnectionId, Option<String>)>,
    relay_peer: PeerId,
) -> (finished: (Result<RelayConnection, EndpointError>, Vec<ConnectionId>))
    ensures
        match selection {
            None => finished.0 == Err::<RelayConnection, EndpointError>(
                EndpointError::RelayUnavailable,
            ) && finished.1@ == Seq::<ConnectionId>::empty(),
            Some(outcome) => {
                &&& finished.1@ == outcome.losers@
                &&& match finished.0 {
                    Ok(relay) => relay.binding == (ConnectionBinding {
                        peer: relay_peer,
                        connection: outcome.winner,
                    }) && exists|place: int|
                        #[trigger] winning_place(addresses@, outcome.winner, place)
                            && addresses@[place].1 == Some(relay.address),
                    Err(error) => error == EndpointError::InvalidSelectedAddress && forall|
                        place: int,
                    | !#[trigger] winning_place(addresses@, outcome.winner, place),
                }
            },
        },
{
    match selection {
        None => (Err(EndpointError::RelayUnavailable), Vec::new()),
        Some(outcome) => {
            let binding = ConnectionBinding { peer: relay_peer, connection: outcome.winner };
            match selected_relay_address(addresses, outcome.winner) {
                Ok(address) => (Ok(RelayConnection { binding, address }), outcome.losers),
                Err(error) => (Err(error), outcome.losers),
            }
        },
    }
}

// ---------------------------------------------------------------------------
// Dialing the relay
// ---------------------------------------------------------------------------

/// When to dial the relay again, if that is still within the dial window.
pub open spec fn dial_moment(now: u64, delay: u64, cutoff: u64) -> Option<u64> {
    if now + delay <= cutoff {
        Some((now + delay) as u64)
    } else {
        None
    }
}

/// When to dial the relay again after `delay`, if that is not past `cutoff`.
pub fn next_relay_dial(now: u64, delay: u64, cutoff: u64) -> (next: Option<u64>)
    ensures
        next == dial_moment(now, delay, cutoff),
{
    if cutoff >= now && delay <= cutoff - now {
        Some(now + delay)
    } else {
        None
    }
}

/// A redial comes exactly its delay later, and is only given up when that lies past
/// the dial window.
pub proof fn law_a_redial_keeps_its_delay(now: u64, delay: u64, cutoff: u64)
    ensures
        match dial_moment(now, delay, cutoff) {
            Some(moment) => moment - now == delay && moment <= cutoff,
            None => cutoff - now < delay,
        },
{
}

/// As many dials are tracked as the swarm took on, and each of them.
pub proof fn law_every_dial_that_was_taken_on_is_tracked(
    dialed: Seq<Option<ConnectionId>>,
    count: int,
)
    requires
        0 <= count <= dialed.len(),
    ensures
        taken_dials(dialed, count).len() <= count,
        (forall|i: int| 0 <= i < count ==> #[trigger] dialed[i] is Some) ==> taken_dials(
            dialed,
            count,
        ).len() == count,
        forall|i: int|
            0 <= i < count && #[trigger] dialed[i] is Some ==> taken_dials(dialed, count).contains(
                dialed[i]->0,
            ),
        forall|connection: ConnectionId| #[trigger]
            taken_dials(dialed, count).contains(connection) ==> exists|i: int|
                0 <= i < count && dialed[i] == Some(connection),
    decreases count,
{
    broadcast use vstd::multiset::group_multiset_axioms;

    if count > 0 {
        law_every_dial_that_was_taken_on_is_tracked(dialed, count - 1);
        assert forall|connection: ConnectionId| #[trigger]
            taken_dials(dialed, count).contains(connection) implies exists|i: int|
            0 <= i < count && dialed[i] == Some(connection) by {
            if dialed[count - 1] != Some(connection) {
                assert(taken_dials(dialed, count - 1).contains(connection));
            }
        }
    }
}

/// Whether the relay may be dialed: no dial of an earlier attempt is pending.
pub fn check_relay_dial(driver: &EndpointDriver) -> (result: Result<(), EndpointError>)
    ensures
        result == if driver.pending_relay_dials@.len() == 0 {
            Ok::<(), EndpointError>(())
        } else {
            Err(EndpointError::RelayDialTrackerUnavailable)
        },
{
    if !driver.pending_relay_dials.is_empty() {
        return Err(EndpointError::RelayDialTrackerUnavailable);
    }
    Ok(())
}

/// The dials among the first `count` transports that the swarm took on.
pub open spec fn taken_dials(
    dialed: Seq<Option<ConnectionId>>,
    count: int,
) -> vstd::multiset::Multiset<ConnectionId>
    decreases count,
{
    if count <= 0 {
        vstd::multiset::Multiset::empty()
    } else {
        match dialed[count - 1] {
            Some(connection) => taken_dials(dialed, count - 1).insert(connection),
            None => taken_dials(dialed, count - 1),
        }
    }
}

/// Tracks the dials to all configured transports of the relay: one entry per
/// transport, with the connection when the swarm took the dial on. A dial that
/// finds the tracker full ends the round, and the ones before it stay tracked.
pub fn dial_relay_set(
    driver: &mut EndpointDriver,
    dialed: &Vec<Option<ConnectionId>>,
) -> (result: Result<(), EndpointError>)
    ensures
        final(driver).local == old(driver).local,
        final(driver).connections == old(driver).connections,
        final(driver).reservation == old(driver).reservation,
        final(driver).direct_upgrades == old(driver).direct_upgrades,
        result is Ok <==> old(driver).pending_relay_dials@.len() == 0 && taken_dials(
            dialed@,
            dialed@.len() as int,
        ).len() <= CONNECTION_CAPACITY,
        result is Err ==> result == Err::<(), EndpointError>(
            EndpointError::RelayDialTrackerUnavailable,
        ),
        old(driver).pending_relay_dials@.len() != 0 ==> final(driver).pending_relay_dials@
            == old(driver).pending_relay_dials@,
        result is Ok ==> final(driver).pending_relay_dials@ == taken_dials(
            dialed@,
            dialed@.len() as int,
        ),
        old(driver).pending_relay_dials@.len() == 0 && result is Err ==> exists|count: int|
            0 <= count < dialed@.len() && dialed@[count] is Some
                && #[trigger] taken_dials(dialed@, count).len() == CONNECTION_CAPACITY
                && final(driver).pending_relay_dials@ == taken_dials(dialed@, count),
{
    check_relay_dial(driver)?;
    assert(driver.pending_relay_dials@ =~= taken_dials(dialed@, 0));
    let mut index: usize = 0;
    while index < dialed.len()
        invariant
            index <= dialed.len(),
            driver.local == old(driver).local,
            driver.connections == old(driver).connections,
            driver.reservation == old(driver).reservation,
            driver.direct_upgrades == old(driver).direct_upgrades,
            old(driver).pending_relay_dials@.len() == 0,
            driver.pending_relay_dials@ == taken_dials(dialed@, index as int),
            driver.pending_relay_dials@.len() <= CONNECTION_CAPACITY,
        decreases dialed.len() - index,
    {
        if let Some(connection) = dialed[index] {
            let inserted = driver.pending_relay_dials.insert(connection);
            if inserted.is_err() {
                proof {
                    lemma_taken_dials_grow(dialed@, index as int + 1, dialed@.len() as int);
                }
                return inserted;
            }
        }
        index += 1;
    }
    Ok(())
}

/// A longer list of dials holds no fewer that were taken on.
proof fn lemma_taken_dials_grow(dialed: Seq<Option<ConnectionId>>, shorter: int, longer: int)
    requires
        0 <= shorter <= longer <= dialed.len(),
    ensures
        taken_dials(dialed, shorter).len() <= taken_dials(dialed, longer).len(),
    decreases longer - shorter,
{
    if shorter < longer {
        lemma_taken_dials_grow(dialed, shorter, longer - 1);
    }
}

/// What an attempt to reach the relay does next.
#[derive(Debug, Clone, Copy, PartialEq, Eq, Structural)]
pub enum RelayPlan {
    /// Wait for an event until the moment.
    WaitUntil(u64),
    /// The attempt has failed.
    Fail(EndpointError),
}

/// What follows a wait without an event in an attempt to reach the relay.
#[derive(Debug, Clone, Copy, PartialEq, Eq, Structural)]
pub enum RelayExpiry {
    /// Dial every transport again.
    Redial,
    /// Collecting is over: choose among the candidates.
    Choose,
    /// The attempt has failed.
    Fail(EndpointError),
}

/// The state of one attempt to reach the relay.
#[verifier::ext_equal]
pub struct RelayAttemptView {
    pub connect_deadline: u64,
    pub dial_cutoff: u64,
    /// When the relay is dialed again.
    pub next_dial: Option<u64>,
    /// When collecting candidates ends, once there was one.
    pub selection_deadline: Option<u64>,
    /// How many delays of the relay policy have been used.
    pub delays: nat,
}

/// The relay policy can give the delay after `delays` earlier ones: that of the
/// policy, and less than as much again as jitter.
pub open spec fn policy_delay(delays: nat, delay: u64) -> bool {
    crate::backoff::relay_delay(delays) <= delay < 2 * crate::backoff::relay_delay(delays)
}

impl RelayAttemptView {
    /// An attempt that begins at `now`, before a redial is considered.
    pub open spec fn initial(now: u64, connect_deadline: u64) -> RelayAttemptView {
        RelayAttemptView {
            connect_deadline,
            dial_cutoff: (now + RELAY_DIAL_WINDOW) as u64,
            next_dial: None,
            selection_deadline: None,
            delays: 0,
        }
    }

    /// Nothing is under way: no candidate was seen, no dial is pending and none
    /// is scheduled.
    pub open spec fn idle(self, dials_pending: bool) -> bool {
        self.selection_deadline is None && self.next_dial is None && !dials_pending
    }

    /// What the attempt does next.
    pub open spec fn plan(self, dials_pending: bool) -> RelayPlan {
        if self.idle(dials_pending) {
            RelayPlan::Fail(EndpointError::RelayUnavailable)
        } else {
            RelayPlan::WaitUntil(
                match self.selection_deadline {
                    Some(deadline) => deadline,
                    None => match self.next_dial {
                        Some(dial) => earlier(self.connect_deadline, dial),
                        None => self.connect_deadline,
                    },
                },
            )
        }
    }

    /// What follows when the wait ended without an event.
    pub open spec fn expired(self, now: u64) -> RelayExpiry {
        if self.selection_deadline is Some {
            RelayExpiry::Choose
        } else if now >= self.connect_deadline {
            RelayExpiry::Fail(EndpointError::RelayUnavailable)
        } else {
            RelayExpiry::Redial
        }
    }

    /// The state after an event, before a redial is considered.
    pub open spec fn observed(self, candidate: bool, now: u64) -> RelayAttemptView {
        RelayAttemptView {
            selection_deadline: if candidate && self.selection_deadline is None {
                Some(earlier((now + SELECTION_WINDOW) as u64, self.connect_deadline))
            } else {
                self.selection_deadline
            },
            ..self
        }
    }

    /// The state after a redial was considered with a delay of `delay`.
    pub open spec fn rescheduled(self, dials_pending: bool, now: u64, delay: u64)
        -> RelayAttemptView {
        if self.idle(dials_pending) {
            RelayAttemptView {
                next_dial: dial_moment(now, delay, self.dial_cutoff),
                delays: if self.delays < usize::MAX {
                    self.delays + 1
                } else {
                    self.delays
                },
                ..self
            }
        } else {
            self
        }
    }

    /// Every moment of the attempt lies before its deadline.
    pub open spec fn bounded(self) -> bool {
        &&& self.selection_deadline matches Some(deadline) ==> deadline <= self.connect_deadline
        &&& self.next_dial matches Some(dial) ==> dial <= self.dial_cutoff
    }
}

/// One attempt to reach the relay over all configured transports.
pub struct RelayAttempt {
    connect_deadline: u64,
    dial_cutoff: u64,
    next_dial: Option<u64>,
    selection_deadline: Option<u64>,
    backoff: RelayBackoff,
}

impl View for RelayAttempt {
    type V = RelayAttemptView;

    closed spec fn view(&self) -> RelayAttemptView {
        RelayAttemptView {
            connect_deadline: self.connect_deadline,
            dial_cutoff: self.dial_cutoff,
            next_dial: self.next_dial,
            selection_deadline: self.selection_deadline,
            delays: self.backoff.attempts(),
        }
    }
}

impl RelayAttempt {
    /// Begins an attempt after the first dials; `dials_pending` says whether
    /// any of them is under way.
    pub fn new(now: u64, connect_deadline: u64, dials_pending: bool) -> (attempt: Self)
        requires
            now + RELAY_DIAL_WINDOW <= u64::MAX,
        ensures
            exists|delay: u64|
                policy_delay(0, delay) && attempt@ == #[trigger] RelayAttemptView::initial(
                    now,
                    connect_deadline,
                ).rescheduled(dials_pending, now, delay),
            attempt@.bounded(),
    {
        let mut attempt = RelayAttempt {
            connect_deadline,
            dial_cutoff: now + RELAY_DIAL_WINDOW,
            next_dial: None,
            selection_deadline: None,
            backoff: relay_backoff(),
        };
        assert(attempt@ == RelayAttemptView::initial(now, connect_deadline));
        attempt.reschedule(dials_pending, now);
        attempt
    }

    /// Schedules a redial when nothing is under way, by the relay policy.
    fn reschedule(&mut self, dials_pending: bool, now: u64)
        ensures
            exists|delay: u64|
                policy_delay(old(self)@.delays, delay) && final(self)@ == #[trigger] old(
                    self,
                )@.rescheduled(dials_pending, now, delay),
            old(self)@.bounded() ==> final(self)@.bounded(),
    {
        proof {
            crate::backoff::law_relay_delays_grow_to_the_bound(self@.delays, self@.delays);
        }
        let ghost mut used: u64 = crate::backoff::relay_delay(self@.delays) as u64;
        if self.selection_deadline.is_none() && self.next_dial.is_none() && !dials_pending {
            let delay: u64 = match self.backoff.next_delay() {
                Some(delay) => delay,
                None => RELAY_BACKOFF_MAX,
            };
            self.next_dial = next_relay_dial(now, delay, self.dial_cutoff);
            proof {
                used = delay;
            }
        }
        assert(policy_delay(old(self)@.delays, used));
        assert(self@ == old(self)@.rescheduled(dials_pending, now, used));
    }

    /// What to do next: wait, or give up because nothing is under way.
    pub fn plan(&self, dials_pending: bool) -> (plan: RelayPlan)
        ensures
            plan == self@.plan(dials_pending),
    {
        if self.selection_deadline.is_none() && self.next_dial.is_none() && !dials_pending {
            return RelayPlan::Fail(EndpointError::RelayUnavailable);
        }
        let deadline: u64 = match self.selection_deadline {
            Some(deadline) => deadline,
            None => match self.next_dial {
                Some(dial) => earlier_of(self.connect_deadline, dial),
                None => self.connect_deadline,
            },
        };
        RelayPlan::WaitUntil(deadline)
    }

    /// What to do when the wait ended without an event. A redial uses up the
    /// scheduled one.
    pub fn expired(&mut self, now: u64) -> (expiry: RelayExpiry)
        ensures
            expiry == old(self)@.expired(now),
            final(self)@ == if expiry == RelayExpiry::Redial {
                RelayAttemptView { next_dial: None, ..old(self)@ }
            } else {
                old(self)@
            },
    {
        if self.selection_deadline.is_some() {
            return RelayExpiry::Choose;
        }
        if now >= self.connect_deadline {
            return RelayExpiry::Fail(EndpointError::RelayUnavailable);
        }
        self.next_dial = None;
        RelayExpiry::Redial
    }

    /// Takes an event into account: the first candidate opens the selection
    /// window, and when nothing is under way any more a redial is scheduled.
    pub fn observe(&mut self, candidate: bool, dials_pending: bool, now: u64)
        requires
            now + SELECTION_WINDOW <= u64::MAX,
        ensures
            exists|delay: u64|
                policy_delay(old(self)@.delays, delay) && final(self)@ == #[trigger] old(
                    self,
                )@.observed(candidate, now).rescheduled(dials_pending, now, delay),
            old(self)@.bounded() ==> final(self)@.bounded(),
    {
        if candidate && self.selection_deadline.is_none() {
            self.selection_deadline = Some(
                earlier_of(now + SELECTION_WINDOW, self.connect_deadline),
            );
        }
        assert(self@ == old(self)@.observed(candidate, now));
        self.reschedule(dials_pending, now);
    }
}

/// An attempt that respects its bounds never waits past its deadline.
pub proof fn law_a_relay_attempt_ends_by_its_deadline(
    attempt: RelayAttemptView,
    dials_pending: bool,
)
    requires
        attempt.bounded(),
    ensures
        attempt.plan(dials_pending) matches RelayPlan::WaitUntil(moment) ==> moment
            <= attempt.connect_deadline,
{
}

/// The first candidate fixes when collecting ends; later ones do not move it,
/// and no redial is scheduled any more.
pub proof fn law_the_first_candidate_fixes_the_selection_window(
    attempt: RelayAttemptView,
    candidate: bool,
    dials_pending: bool,
    now: u64,
    delay: u64,
)
    requires
        attempt.selection_deadline is Some,
    ensures
        attempt.observed(candidate, now) == attempt,
        attempt.rescheduled(dials_pending, now, delay) == attempt,
        attempt.expired(now) == RelayExpiry::Choose,
{
}

/// While no candidate was seen, an attempt waits for the scheduled redial, or for its
/// deadline when that comes first, and then redials or gives up.
pub proof fn law_a_relay_attempt_redials_on_time(
    attempt: RelayAttemptView,
    dials_pending: bool,
    dial: u64,
    now: u64,
)
    requires
        attempt.selection_deadline is None,
        attempt.next_dial == Some(dial),
    ensures
        dial <= attempt.connect_deadline ==> attempt.plan(dials_pending) == RelayPlan::WaitUntil(
            dial,
        ),
        dial > attempt.connect_deadline ==> attempt.plan(dials_pending) == RelayPlan::WaitUntil(
            attempt.connect_deadline,
        ),
        now < attempt.connect_deadline <==> attempt.expired(now) == RelayExpiry::Redial,
        now >= attempt.connect_deadline <==> attempt.expired(now) == RelayExpiry::Fail(
            EndpointError::RelayUnavailable,
        ),
{
}

/// An attempt gives up before its deadline only when nothing is under way: no
/// candidate, no pending dial and no scheduled one. Pending dials are waited for until
/// the deadline, and a selection until its own end.
pub proof fn law_a_relay_attempt_fails_only_when_nothing_is_under_way(
    attempt: RelayAttemptView,
    dials_pending: bool,
)
    ensures
        attempt.plan(dials_pending) is Fail <==> attempt.selection_deadline is None
            && attempt.next_dial is None && !dials_pending,
        attempt.plan(dials_pending) is Fail ==> attempt.plan(dials_pending) == RelayPlan::Fail(
            EndpointError::RelayUnavailable,
        ),
        attempt.selection_deadline is None && attempt.next_dial is None && dials_pending
            ==> attempt.plan(dials_pending) == RelayPlan::WaitUntil(attempt.connect_deadline),
        attempt.selection_deadline matches Some(deadline) ==> attempt.plan(dials_pending)
            == RelayPlan::WaitUntil(deadline),
{
}

/// The first candidate opens a window of [`SELECTION_WINDOW`], cut short by the
/// deadline of the attempt, and changes nothing else; an event without a candidate
/// changes nothing.
pub proof fn law_the_first_relay_candidate_opens_the_window(attempt: RelayAttemptView, now: u64)
    requires
        attempt.selection_deadline is None,
        now + SELECTION_WINDOW <= u64::MAX,
    ensures
        attempt.observed(false, now) == attempt,
        ({
            let opened = attempt.observed(true, now);
            &&& opened == (RelayAttemptView {
                selection_deadline: opened.selection_deadline,
                ..attempt
            })
            &&& opened.selection_deadline is Some
            &&& opened.selection_deadline->0 <= now + SELECTION_WINDOW
            &&& opened.selection_deadline->0 <= attempt.connect_deadline
            &&& opened.selection_deadline->0 == now + SELECTION_WINDOW
                || opened.selection_deadline->0 == attempt.connect_deadline
        }),
{
}

/// When nothing is under way a redial is scheduled after the delay, as long as that is
/// within the dial window, and a delay of the policy is used up; while anything is
/// under way nothing is scheduled.
pub proof fn law_a_redial_is_scheduled_when_nothing_is_under_way(
    attempt: RelayAttemptView,
    dials_pending: bool,
    now: u64,
    delay: u64,
)
    requires
        attempt.delays < usize::MAX,
    ensures
        ({
            let next = attempt.rescheduled(dials_pending, now, delay);
            if attempt.selection_deadline is None && attempt.next_dial is None && !dials_pending {
                &&& next.delays == attempt.delays + 1
                &&& next.selection_deadline is None
                &&& next.connect_deadline == attempt.connect_deadline
                &&& next.dial_cutoff == attempt.dial_cutoff
                &&& next.next_dial is Some <==> now + delay <= attempt.dial_cutoff
                &&& next.next_dial is Some ==> next.next_dial->0 == now + delay
            } else {
                next == attempt
            }
        }),
{
}

/// An attempt begins with nothing but its two limits: its deadline, and the end of its
/// dial window.
pub proof fn law_a_relay_attempt_begins_with_its_limits(now: u64, connect_deadline: u64)
    requires
        now + RELAY_DIAL_WINDOW <= u64::MAX,
    ensures
        ({
            let attempt = RelayAttemptView::initial(now, connect_deadline);
            &&& attempt.connect_deadline == connect_deadline
            &&& attempt.dial_cutoff == now + RELAY_DIAL_WINDOW
            &&& attempt.next_dial is None
            &&& attempt.selection_deadline is None
            &&& attempt.delays == 0
        }),
{
}

/// The deadlines of one connection to the configured relay: that of the whole,
/// and that of the attempt, which leaves time for draining.
pub fn relay_deadlines(now: u64) -> (deadlines: (u64, u64))
    requires
        now + CONNECT_TIMEOUT <= u64::MAX,
    ensures
        deadlines.0 == now + CONNECT_TIMEOUT,
        deadlines.1 == now + CONNECT_TIMEOUT - RELAY_DRAIN_WINDOW,
{
    let deadline: u64 = now + CONNECT_TIMEOUT;
    (deadline, deadline - RELAY_DRAIN_WINDOW)
}

/// The result of one connection to the configured relay. A drain that failed
/// outweighs what the attempt came to.
pub fn configured_relay_result(
    attempt: Result<RelayConnection, EndpointError>,
    drained: Result<(), EndpointError>,
) -> (result: Result<RelayConnection, EndpointError>)
    ensures
        result == match drained {
            Ok(_) => attempt,
            Err(error) => Err(error),
        },
{
    match drained {
        Ok(()) => attempt,
        Err(error) => Err(error),
    }
}

// ---------------------------------------------------------------------------
// Draining and converging
// ---------------------------------------------------------------------------

/// Where closing connections has got to.
#[derive(Debug, Clone, Copy, PartialEq, Eq, Structural)]
pub enum Convergence {
    /// Wait for the next event.
    Pending,
    /// The roster is as wanted.
    Settled,
    /// It can no longer become so.
    Failed(EndpointError),
}

/// One round of closing connections.
#[derive(Debug, PartialEq, Eq)]
pub struct ClosingRound {
    pub close: Vec<ConnectionId>,
    pub state: Convergence,
}

/// The connections of a roster other than the one to keep.
pub open spec fn surplus(
    connections: Seq<ConnectionId>,
    keep: Option<ConnectionBinding>,
) -> Seq<ConnectionId> {
    connections.filter(
        |connection: ConnectionId|
            match keep {
                Some(binding) => connection != binding.connection,
                None => true,
            },
    )
}

fn surplus_of(connections: &Vec<ConnectionId>, keep: Option<ConnectionBinding>) -> (close: Vec<
    ConnectionId,
>)
    ensures
        close@ == surplus(connections@, keep),
{
    let ghost unwanted = |connection: ConnectionId|
        match keep {
            Some(binding) => connection != binding.connection,
            None => true,
        };
    let mut close: Vec<ConnectionId> = Vec::new();
    let mut index: usize = 0;
    while index < connections.len()
        invariant
            index <= connections.len(),
            unwanted == (|connection: ConnectionId|
                match keep {
                    Some(binding) => connection != binding.connection,
                    None => true,
                }),
            close@ == connections@.take(index as int).filter(unwanted),
        decreases connections.len() - index,
    {
        proof {
            reveal(Seq::filter);
            assert(connections@.take(index + 1).drop_last() =~= connections@.take(index as int));
        }
        let connection = connections[index];
        let kept = match keep {
            Some(binding) => connection == binding.connection,
            None => false,
        };
        if !kept {
            close.push(connection);
        }
        index += 1;
    }
    assert(connections@.take(index as int) =~= connections@);
    close
}

/// Where draining has got to: nothing but the kept connection may be left, and
/// no dial may be pending.
pub open spec fn drain_state(
    relay_roster: Seq<ConnectionId>,
    bound_roster: Seq<ConnectionId>,
    keep: Option<ConnectionBinding>,
    dials_pending: bool,
) -> Convergence {
    let ready = match keep {
        Some(binding) => BindingState::over(bound_roster, binding) == BindingState::Bound,
        None => relay_roster.len() == 0,
    };
    if keep matches Some(binding) && BindingState::over(bound_roster, binding)
        == BindingState::Lost {
        Convergence::Failed(EndpointError::SelectedConnectionLost)
    } else if ready && !dials_pending {
        Convergence::Settled
    } else {
        Convergence::Pending
    }
}

/// One round of draining the relay: closes every connection but the kept one.
pub fn drain_relay_state(
    driver: &EndpointDriver,
    relay: PeerId,
    keep: Option<ConnectionBinding>,
) -> (round: ClosingRound)
    ensures
        round.close@ == surplus(driver.connections.of(relay), keep),
        round.state == drain_state(
            driver.connections.of(relay),
            match keep {
                Some(binding) => driver.connections.of(binding.peer),
                None => Seq::empty(),
            },
            keep,
            driver.pending_relay_dials@.len() != 0,
        ),
{
    let connections = driver.connections.connections(relay);
    let close = surplus_of(&connections, keep);
    let ready = match keep {
        Some(binding) => match driver.binding_state(binding) {
            BindingState::Bound => true,
            BindingState::Lost => {
                return ClosingRound {
                    close,
                    state: Convergence::Failed(EndpointError::SelectedConnectionLost),
                };
            },
            BindingState::Ambiguous => false,
        },
        None => driver.connection_count(relay) == 0,
    };
    let state = if ready && driver.pending_relay_dials.is_empty() {
        Convergence::Settled
    } else {
        Convergence::Pending
    };
    ClosingRound { close, state }
}

/// Whether an event during a drain took the kept connection away.
pub fn relay_drain_event(event: &EndpointEvent, keep: Option<ConnectionBinding>) -> (result: Result<
    (),
    EndpointError,
>)
    ensures
        result == if keep matches Some(binding) && *event == (EndpointEvent::Closed {
            peer: binding.peer,
            connection: binding.connection,
        }) {
            Err::<(), EndpointError>(EndpointError::SelectedConnectionLost)
        } else {
            Ok(())
        },
{
    if let EndpointEvent::Closed { peer, connection } = event {
        if let Some(binding) = keep {
            if *peer == binding.peer && *connection == binding.connection {
                return Err(EndpointError::SelectedConnectionLost);
            }
        }
    }
    Ok(())
}

/// How a wait ended.
#[derive(Debug, Clone, Copy, PartialEq, Eq, Structural)]
pub enum Waited {
    /// With an event, already applied to the endpoint.
    Event(EndpointEvent),
    /// Its deadline passed.
    Expired,
}

/// What the end of a wait means for a drain that leaves `keep`.
pub open spec fn drain_verdict(waited: Waited, keep: Option<ConnectionBinding>) -> Result<
    (),
    EndpointError,
> {
    match waited {
        Waited::Expired => Err(EndpointError::RelayDidNotConverge),
        Waited::Event(event) => if keep matches Some(binding) && event == (EndpointEvent::Closed {
            peer: binding.peer,
            connection: binding.connection,
        }) {
            Err(EndpointError::SelectedConnectionLost)
        } else {
            Ok(())
        },
    }
}

/// What the end of a wait means for a drain.
pub fn drain_after(waited: Waited, keep: Option<ConnectionBinding>) -> (result: Result<
    (),
    EndpointError,
>)
    ensures
        result == drain_verdict(waited, keep),
{
    match waited {
        Waited::Event(event) => relay_drain_event(&event, keep),
        Waited::Expired => Err(EndpointError::RelayDidNotConverge),
    }
}

/// The deadline for converging to one connection.
pub fn convergence_deadline(now: u64, outer_deadline: u64) -> (deadline: u64)
    requires
        now + CONVERGENCE_TIMEOUT <= u64::MAX,
    ensures
        deadline == earlier((now + CONVERGENCE_TIMEOUT) as u64, outer_deadline),
{
    earlier_of(now + CONVERGENCE_TIMEOUT, outer_deadline)
}

/// Where converging to `binding` has got to.
pub open spec fn converge_state(
    roster: Seq<ConnectionId>,
    binding: ConnectionBinding,
) -> Convergence {
    if !roster.contains(binding.connection) {
        Convergence::Failed(EndpointError::SelectedConnectionLost)
    } else if roster == seq![binding.connection] {
        Convergence::Settled
    } else {
        Convergence::Pending
    }
}

/// One round of converging to a binding: every other connection of the peer is
/// closed, unless the authorized one is gone or alone.
pub fn converge_to_binding(driver: &EndpointDriver, binding: ConnectionBinding) -> (round:
    ClosingRound)
    ensures
        ({
            let roster = driver.connections.of(binding.peer);
            &&& round.state == converge_state(roster, binding)
            &&& round.close@ == if round.state == Convergence::Pending {
                roster.filter(|connection: ConnectionId| connection != binding.connection)
            } else {
                Seq::empty()
            }
        }),
{
    if !driver.has_connection(binding) {
        return ClosingRound {
            close: Vec::new(),
            state: Convergence::Failed(EndpointError::SelectedConnectionLost),
        };
    }
    if driver.validate_binding(binding).is_ok() {
        return ClosingRound { close: Vec::new(), state: Convergence::Settled };
    }
    ClosingRound {
        close: driver.close_connections_except(binding),
        state: Convergence::Pending,
    }
}

/// One round of closing every connection of a peer.
pub fn close_peer_and_wait(driver: &EndpointDriver, peer: PeerId) -> (round: ClosingRound)
    ensures
        round.close@ == driver.connections.of(peer),
        round.state == if driver.connections.of(peer).len() == 0 {
            Convergence::Settled
        } else {
            Convergence::Pending
        },
{
    let close = driver.close_bound_peer(peer);
    let state = if close.len() == 0 {
        Convergence::Settled
    } else {
        Convergence::Pending
    };
    ClosingRound { close, state }
}

/// What the end of a wait means for converging to a binding.
pub fn converge_after(waited: Waited) -> (result: Result<(), EndpointError>)
    ensures
        result == if waited == Waited::Expired {
            Err::<(), EndpointError>(EndpointError::RelayDidNotConverge)
        } else {
            Ok(())
        },
{
    match waited {
        Waited::Event(_) => Ok(()),
        Waited::Expired => Err(EndpointError::RelayDidNotConverge),
    }
}

/// What the end of a wait means for closing every connection of a peer.
pub fn close_peer_after(waited: Waited) -> (result: Result<(), EndpointError>)
    ensures
        result == if waited == Waited::Expired {
            Err::<(), EndpointError>(EndpointError::ConnectionCloseDidNotConverge)
        } else {
            Ok(())
        },
{
    match waited {
        Waited::Event(_) => Ok(()),
        Waited::Expired => Err(EndpointError::ConnectionCloseDidNotConverge),
    }
}

/// A drain that has settled has left nothing but the kept connection, and no
/// dial that could still bring another.
pub proof fn law_a_settled_drain_leaves_only_the_kept_connection(
    roster: Seq<ConnectionId>,
    keep: Option<ConnectionBinding>,
    dials_pending: bool,
)
    requires
        drain_state(roster, roster, keep, dials_pending) == Convergence::Settled,
    ensures
        !dials_pending,
        roster == match keep {
            Some(binding) => seq![binding.connection],
            None => Seq::empty(),
        },
        surplus(roster, keep) == Seq::<ConnectionId>::empty(),
{
    reveal(Seq::filter);
    match keep {
        Some(binding) => {
            assert(roster.len() == 1 && roster[0] == binding.connection);
            assert(roster.drop_last() =~= Seq::empty());
            reveal_with_fuel(Seq::filter, 2);
        },
        None => {
            assert(roster =~= Seq::empty());
        },
    }
}

/// A drain closes every connection but the kept one. It has settled as soon as nothing
/// else is left and no dial is pending, and it fails only when the kept connection's
/// peer has none left.
pub proof fn law_a_drain_closes_the_rest(
    roster: Seq<ConnectionId>,
    keep: Option<ConnectionBinding>,
    dials_pending: bool,
)
    ensures
        forall|connection: ConnectionId| #[trigger]
            surplus(roster, keep).contains(connection) <==> roster.contains(connection) && !(
            keep matches Some(binding) && binding.connection == connection),
        keep is None ==> (drain_state(roster, roster, keep, dials_pending) == Convergence::Settled
            <==> roster.len() == 0 && !dials_pending),
        keep matches Some(binding) ==> (drain_state(roster, roster, keep, dials_pending)
            == Convergence::Settled <==> roster == seq![binding.connection] && !dials_pending),
        drain_state(roster, roster, keep, dials_pending) == Convergence::Failed(
            EndpointError::SelectedConnectionLost,
        ) <==> keep is Some && roster.len() == 0,
        drain_state(roster, roster, keep, dials_pending) is Failed ==> keep is Some && roster.len()
            == 0,
{
    let unwanted = |connection: ConnectionId|
        match keep {
            Some(binding) => connection != binding.connection,
            None => true,
        };
    assert forall|connection: ConnectionId| #[trigger]
        surplus(roster, keep).contains(connection) <==> roster.contains(connection) && !(
        keep matches Some(binding) && binding.connection == connection) by {
        let kept = roster.filter(unwanted);
        if kept.contains(connection) {
            let i = choose|i: int| 0 <= i < kept.len() && kept[i] == connection;
            roster.lemma_filter_pred(unwanted, i);
            roster.lemma_filter_contains_rev(unwanted, connection);
        }
        if roster.contains(connection) && unwanted(connection) {
            let i = choose|i: int| 0 <= i < roster.len() && roster[i] == connection;
            roster.lemma_filter_contains(unwanted, i);
        }
    }
}

/// Converging fails exactly when the connection to converge to is gone, and goes on
/// exactly while another one is left beside it; what is then closed is every other
/// connection.
pub proof fn law_convergence_goes_on_until_it_is_alone(
    roster: Seq<ConnectionId>,
    binding: ConnectionBinding,
)
    ensures
        converge_state(roster, binding) == Convergence::Failed(
            EndpointError::SelectedConnectionLost,
        ) <==> !roster.contains(binding.connection),
        converge_state(roster, binding) == Convergence::Pending <==> roster.contains(
            binding.connection,
        ) && roster.len() > 1,
        converge_state(roster, binding) == Convergence::Settled <==> roster.contains(
            binding.connection,
        ) && roster.len() == 1,
{
    if roster == seq![binding.connection] {
        assert(roster[0] == binding.connection);
        assert(roster.len() == 1);
    }
    if roster.contains(binding.connection) && roster.len() == 1 {
        assert(roster =~= seq![binding.connection]);
    }
}

/// Convergence never closes the connection that it converges to, and the
/// binding that it settles on is valid.
pub proof fn law_convergence_keeps_the_authorized_connection(
    roster: Seq<ConnectionId>,
    binding: ConnectionBinding,
)
    ensures
        !roster.filter(
            |connection: ConnectionId| connection != binding.connection,
        ).contains(binding.connection),
        converge_state(roster, binding) == Convergence::Settled <==> BindingState::over(
            roster,
            binding,
        ) == BindingState::Bound,
{
    let others = |connection: ConnectionId| connection != binding.connection;
    if roster == seq![binding.connection] {
        assert(roster[0] == binding.connection);
    }
    if roster.filter(others).contains(binding.connection) {
        let kept = roster.filter(others);
        let i = choose|i: int| 0 <= i < kept.len() && kept[i] == binding.connection;
        roster.lemma_filter_pred(others, i);
    }
}

// ---------------------------------------------------------------------------
// The reservation
// ---------------------------------------------------------------------------

/// What an event means for a reservation that is waited for.
#[derive(Debug, Clone, Copy, PartialEq, Eq, Structural)]
pub enum ReservationDecision {
    Continue,
    Ready,
    Failed(EndpointError),
}

/// What an event means for the reservation of `listener` over `relay`.
pub open spec fn reservation_verdict(
    event: EndpointEvent,
    relay: ConnectionBinding,
    listener: ReservationListenerId,
    relay_connection_present: bool,
) -> ReservationDecision {
    if event == EndpointEvent::ReservationReady(listener) && relay_connection_present {
        ReservationDecision::Ready
    } else if event == EndpointEvent::ReservationReady(listener) || event == (
    EndpointEvent::Closed { peer: relay.peer, connection: relay.connection }) {
        ReservationDecision::Failed(EndpointError::SelectedConnectionLost)
    } else if event == EndpointEvent::ReservationClosed(listener) {
        ReservationDecision::Failed(EndpointError::ReservationClosed)
    } else {
        ReservationDecision::Continue
    }
}

/// Decides on an event while the reservation is waited for.
pub fn reservation_decision(
    event: &EndpointEvent,
    relay: &RelayConnection,
    listener: ReservationListenerId,
    relay_connection_present: bool,
) -> (decision: ReservationDecision)
    ensures
        decision == reservation_verdict(
            *event,
            relay.binding,
            listener,
            relay_connection_present,
        ),
{
    match event {
        EndpointEvent::ReservationReady(ready) => {
            if *ready != listener {
                ReservationDecision::Continue
            } else if relay_connection_present {
                ReservationDecision::Ready
            } else {
                ReservationDecision::Failed(EndpointError::SelectedConnectionLost)
            }
        },
        EndpointEvent::ReservationClosed(closed) => {
            if *closed == listener {
                ReservationDecision::Failed(EndpointError::ReservationClosed)
            } else {
                ReservationDecision::Continue
            }
        },
        EndpointEvent::Closed { peer, connection } => {
            if *peer == relay.peer() && *connection == relay.binding().connection() {
                ReservationDecision::Failed(EndpointError::SelectedConnectionLost)
            } else {
                ReservationDecision::Continue
            }
        },
        _ => ReservationDecision::Continue,
    }
}

/// A reservation is ready exactly when its own listener says so while the relay
/// connection exists. It fails when that connection is gone or the listener closed,
/// and events of other listeners and connections do not matter.
pub proof fn law_a_reservation_rests_on_its_listener_and_its_relay(
    event: EndpointEvent,
    relay: ConnectionBinding,
    listener: ReservationListenerId,
    present: bool,
)
    ensures
        reservation_verdict(event, relay, listener, present) == ReservationDecision::Ready <==> (
        event == EndpointEvent::ReservationReady(listener) && present),
        reservation_verdict(event, relay, listener, present) == ReservationDecision::Failed(
            EndpointError::SelectedConnectionLost,
        ) <==> (event == EndpointEvent::ReservationReady(listener) && !present) || (event
            == EndpointEvent::Closed { peer: relay.peer, connection: relay.connection }),
        reservation_verdict(event, relay, listener, present) == ReservationDecision::Failed(
            EndpointError::ReservationClosed,
        ) <==> event == EndpointEvent::ReservationClosed(listener),
        reservation_verdict(event, relay, listener, present) == ReservationDecision::Continue
            <==> event != EndpointEvent::ReservationReady(listener) && event
            != EndpointEvent::ReservationClosed(listener) && event != (EndpointEvent::Closed {
            peer: relay.peer,
            connection: relay.connection,
        }),
{
}

/// What the end of a wait means for the reservation. A reservation that is
/// ready is only usable while the selected relay connection exists.
pub fn wait_for_reservation(
    driver: &EndpointDriver,
    relay: &RelayConnection,
    listener: ReservationListenerId,
    waited: Waited,
) -> (decision: ReservationDecision)
    ensures
        decision == match waited {
            Waited::Event(event) => reservation_verdict(
                event,
                relay.binding,
                listener,
                driver.connections.of(relay.binding.peer).contains(relay.binding.connection),
            ),
            Waited::Expired => ReservationDecision::Failed(EndpointError::RelayUnavailable),
        },
{
    match waited {
        Waited::Event(event) => reservation_decision(
            &event,
            relay,
            listener,
            driver.has_connection(relay.binding()),
        ),
        Waited::Expired => ReservationDecision::Failed(EndpointError::RelayUnavailable),
    }
}

// ---------------------------------------------------------------------------
// The target
// ---------------------------------------------------------------------------

/// Whether an endpoint tries to replace a relayed connection by a direct one.
#[derive(Debug, Clone, Copy, PartialEq, Eq, Structural)]
pub enum DirectUpgradePolicy {
    Enabled,
    Disabled,
}

/// Whether target candidates may be chosen from: the selection window is over,
/// and with the policy enabled the direct upgrade has failed or its connection
/// is a candidate.
pub open spec fn target_settled(
    upgrade_selected: bool,
    outcome: Option<DirectUpgradeOutcome>,
    selection_elapsed: bool,
    policy: DirectUpgradePolicy,
) -> bool {
    &&& selection_elapsed
    &&& policy == DirectUpgradePolicy::Disabled || match outcome {
        Some(DirectUpgradeOutcome::Connected(_)) => upgrade_selected,
        Some(DirectUpgradeOutcome::Failed) => true,
        None => false,
    }
}

/// Whether target candidates may be chosen from; `upgrade_selected` says
/// whether the connection that the direct upgrade made is a candidate.
pub fn target_selection_is_settled(
    upgrade_selected: bool,
    outcome: Option<DirectUpgradeOutcome>,
    selection_elapsed: bool,
    policy: DirectUpgradePolicy,
) -> (settled: bool)
    ensures
        settled == target_settled(upgrade_selected, outcome, selection_elapsed, policy),
{
    if !selection_elapsed {
        return false;
    }
    match policy {
        DirectUpgradePolicy::Disabled => true,
        DirectUpgradePolicy::Enabled => match outcome {
            Some(DirectUpgradeOutcome::Connected(_)) => upgrade_selected,
            Some(DirectUpgradeOutcome::Failed) => true,
            None => false,
        },
    }
}

/// What an attempt to reach the target does next.
#[derive(Debug, Clone, Copy, PartialEq, Eq, Structural)]
pub enum TargetPlan {
    /// Wait for the next event.
    Wait,
    /// Choose among the candidates.
    Choose,
    /// Close every connection to the target and fail.
    GiveUp(EndpointError),
}

/// One attempt to settle on a connection to the target.
#[derive(Debug, Clone, Copy, PartialEq, Eq, Structural)]
pub struct TargetAttempt {
    pub target: PeerId,
    pub connect_deadline: u64,
    pub policy: DirectUpgradePolicy,
    /// When collecting candidates ends, once there was one.
    pub selection_deadline: Option<u64>,
    pub has_candidate: bool,
    /// The selection window is over.
    pub selection_elapsed: bool,
    pub outcome: Option<DirectUpgradeOutcome>,
}

impl TargetAttempt {
    /// The attempt at its beginning.
    pub open spec fn initial(
        target: PeerId,
        connect_deadline: u64,
        policy: DirectUpgradePolicy,
    ) -> TargetAttempt {
        TargetAttempt {
            target,
            connect_deadline,
            policy,
            selection_deadline: None,
            has_candidate: false,
            selection_elapsed: false,
            outcome: None,
        }
    }

    /// The plan once everything known has been taken into account.
    pub open spec fn settle(self, upgrade_selected: bool) -> TargetPlan {
        if target_settled(upgrade_selected, self.outcome, self.selection_elapsed, self.policy) {
            TargetPlan::Choose
        } else {
            TargetPlan::Wait
        }
    }

    /// Until when the attempt waits.
    pub open spec fn wait_deadline(self) -> u64 {
        match self.selection_deadline {
            Some(deadline) if !self.selection_elapsed => deadline,
            _ => self.connect_deadline,
        }
    }

    /// The passing of [`Self::wait_deadline`] ends the selection window rather
    /// than the attempt.
    pub open spec fn window_open(self) -> bool {
        self.selection_deadline is Some && !self.selection_elapsed
    }

    /// How the direct upgrade came out, as far as an event tells too.
    pub open spec fn outcome_with(self, event: Option<EndpointEvent>) -> Option<
        DirectUpgradeOutcome,
    > {
        match event {
            Some(EndpointEvent::DirectUpgradeFinished { peer, outcome }) if peer == self.target => {
                Some(outcome)
            },
            _ => self.outcome,
        }
    }

    /// The connection that the direct upgrade made, as far as an event tells too.
    pub open spec fn upgraded(self, event: Option<EndpointEvent>) -> Option<ConnectionId> {
        match self.outcome_with(event) {
            Some(DirectUpgradeOutcome::Connected(connection)) => Some(connection),
            _ => None,
        }
    }

    /// Why an attempt that ran out of time has failed.
    pub open spec fn unsettled(self) -> EndpointError {
        if self.has_candidate {
            EndpointError::TargetUpgradeDidNotSettle
        } else {
            EndpointError::RelayUnavailable
        }
    }

    /// Why a choice is refused: with the policy enabled, for a direct upgrade that
    /// failed.
    pub open spec fn refused(self) -> Option<EndpointError> {
        if self.policy == DirectUpgradePolicy::Enabled && self.outcome == Some(
            DirectUpgradeOutcome::Failed,
        ) {
            Some(EndpointError::DirectUpgradeFailed)
        } else {
            None
        }
    }

    /// What an event means for the selection of the attempt.
    pub open spec fn ordered(self, event: EndpointEvent) -> SelectionOrder {
        selection_order(self.target, event, !self.selection_elapsed)
    }

    /// The attempt after an event that gained a candidate or not.
    pub open spec fn observed(self, event: EndpointEvent, candidate: bool, now: u64)
        -> TargetAttempt {
        let has_candidate = self.has_candidate || candidate;
        TargetAttempt {
            outcome: self.outcome_with(Some(event)),
            has_candidate,
            selection_deadline: if has_candidate && self.selection_deadline is None {
                Some(earlier((now + TARGET_SELECTION_WINDOW) as u64, self.connect_deadline))
            } else {
                self.selection_deadline
            },
            ..self
        }
    }

    /// What every reachable attempt satisfies.
    pub open spec fn valid(self) -> bool {
        &&& self.selection_deadline is Some <==> self.has_candidate
        &&& self.selection_deadline matches Some(deadline) ==> deadline <= self.connect_deadline
        &&& self.selection_elapsed ==> self.has_candidate
    }

    /// Begins an attempt.
    pub fn new(target: PeerId, connect_deadline: u64, policy: DirectUpgradePolicy) -> (attempt:
        Self)
        ensures
            attempt == TargetAttempt::initial(target, connect_deadline, policy),
            attempt.valid(),
    {
        TargetAttempt {
            target,
            connect_deadline,
            policy,
            selection_deadline: None,
            has_candidate: false,
            selection_elapsed: false,
            outcome: None,
        }
    }

    /// Until when to wait for the next event.
    pub fn deadline(&self) -> (deadline: u64)
        ensures
            deadline == self.wait_deadline(),
    {
        if self.selection_elapsed {
            self.connect_deadline
        } else {
            match self.selection_deadline {
                Some(deadline) => deadline,
                None => self.connect_deadline,
            }
        }
    }

    /// What to do with the selection on an event.
    pub fn order(&self, event: EndpointEvent) -> (order: SelectionOrder)
        ensures
            order == self.ordered(event),
    {
        process_target_selection_event(self.target, event, !self.selection_elapsed)
    }

    /// The connection that the direct upgrade made, as far as it is known once an
    /// event, if there is one, has been taken into account.
    pub fn upgrade(&self, event: Option<EndpointEvent>) -> (connection: Option<ConnectionId>)
        ensures
            connection == self.upgraded(event),
    {
        let mut outcome = self.outcome;
        if let Some(EndpointEvent::DirectUpgradeFinished { peer, outcome: finished }) = event {
            if peer == self.target {
                outcome = Some(finished);
            }
        }
        match outcome {
            Some(DirectUpgradeOutcome::Connected(connection)) => Some(connection),
            _ => None,
        }
    }

    /// Takes the passing of the deadline into account. The first time it ends
    /// the selection window; after that it ends the attempt.
    pub fn expired(&mut self, upgrade_selected: bool) -> (plan: TargetPlan)
        ensures
            old(self).window_open() ==> *final(self) == (TargetAttempt {
                selection_elapsed: true,
                ..*old(self)
            }) && plan == final(self).settle(upgrade_selected),
            !old(self).window_open() ==> *final(self) == *old(self) && plan == TargetPlan::GiveUp(
                old(self).unsettled(),
            ),
            old(self).valid() ==> final(self).valid(),
    {
        if self.selection_deadline.is_some() && !self.selection_elapsed {
            self.selection_elapsed = true;
            return self.plan(upgrade_selected);
        }
        TargetPlan::GiveUp(
            if self.has_candidate {
                EndpointError::TargetUpgradeDidNotSettle
            } else {
                EndpointError::RelayUnavailable
            },
        )
    }

    /// Takes an event into account. `candidate` says whether it gained a
    /// candidate, and `upgrade_selected` whether the connection that the direct
    /// upgrade made is a candidate now.
    pub fn observe(
        &mut self,
        event: EndpointEvent,
        candidate: bool,
        upgrade_selected: bool,
        now: u64,
    ) -> (plan: TargetPlan)
        requires
            now + TARGET_SELECTION_WINDOW <= u64::MAX,
        ensures
            *final(self) == old(self).observed(event, candidate, now),
            plan == final(self).settle(upgrade_selected),
            old(self).valid() ==> final(self).valid(),
    {
        if let EndpointEvent::DirectUpgradeFinished { peer, outcome } = event {
            if peer == self.target {
                self.outcome = Some(outcome);
            }
        }
        if candidate {
            self.has_candidate = true;
        }
        if self.has_candidate && self.selection_deadline.is_none() {
            self.selection_deadline = Some(
                earlier_of(now + TARGET_SELECTION_WINDOW, self.connect_deadline),
            );
        }
        self.plan(upgrade_selected)
    }

    fn plan(&self, upgrade_selected: bool) -> (plan: TargetPlan)
        ensures
            plan == self.settle(upgrade_selected),
    {
        if target_selection_is_settled(
            upgrade_selected,
            self.outcome,
            self.selection_elapsed,
            self.policy,
        ) {
            TargetPlan::Choose
        } else {
            TargetPlan::Wait
        }
    }

    /// Whether the choice is refused: with the policy enabled a failed direct
    /// upgrade gives the whole attempt up, so that it can be made again through
    /// the relay alone.
    pub fn refusal(&self) -> (refusal: Option<EndpointError>)
        ensures
            refusal == self.refused(),
    {
        match (self.policy, self.outcome) {
            (DirectUpgradePolicy::Enabled, Some(DirectUpgradeOutcome::Failed)) => {
                Some(EndpointError::DirectUpgradeFailed)
            },
            _ => None,
        }
    }

    /// Turns a finished selection into the binding to converge to, with the
    /// losers to close.
    pub fn conclude(&self, selection: Option<SelectionOutcome>) -> (chosen: (
        Result<ConnectionBinding, EndpointError>,
        Vec<ConnectionId>,
    ))
        ensures
            match selection {
                None => chosen.0 == Err::<ConnectionBinding, EndpointError>(
                    EndpointError::RelayUnavailable,
                ) && chosen.1@ == Seq::<ConnectionId>::empty(),
                Some(outcome) => chosen.0 == Ok::<ConnectionBinding, EndpointError>(
                    ConnectionBinding { peer: self.target, connection: outcome.winner },
                ) && chosen.1@ == outcome.losers@,
            },
    {
        match selection {
            None => (Err(EndpointError::RelayUnavailable), Vec::new()),
            Some(outcome) => (
                Ok(ConnectionBinding { peer: self.target, connection: outcome.winner }),
                outcome.losers,
            ),
        }
    }
}

/// No wait of an attempt goes past its deadline, and nothing is chosen while
/// candidates are still collected.
pub proof fn law_a_target_attempt_ends_by_its_deadline(
    attempt: TargetAttempt,
    upgrade_selected: bool,
)
    requires
        attempt.valid(),
    ensures
        attempt.wait_deadline() <= attempt.connect_deadline,
        attempt.settle(upgrade_selected) == TargetPlan::Choose ==> attempt.selection_elapsed
            && attempt.has_candidate,
{
}

/// Without the policy the end of the selection window is all that a choice
/// waits for; with it, a direct upgrade that has not come to an end, or whose
/// connection is no candidate, holds the choice back.
pub proof fn law_a_choice_waits_for_the_direct_upgrade(
    attempt: TargetAttempt,
    upgrade_selected: bool,
)
    requires
        attempt.selection_elapsed,
    ensures
        attempt.policy == DirectUpgradePolicy::Disabled ==> attempt.settle(upgrade_selected)
            == TargetPlan::Choose,
        attempt.policy == DirectUpgradePolicy::Enabled && attempt.outcome is None
            ==> attempt.settle(upgrade_selected) == TargetPlan::Wait,
        attempt.policy == DirectUpgradePolicy::Enabled && !upgrade_selected && !(
        attempt.outcome matches Some(DirectUpgradeOutcome::Failed)) ==> attempt.settle(
            upgrade_selected,
        ) == TargetPlan::Wait,
{
}

/// Once the selection window is over, a choice is made as soon as the direct upgrade
/// has failed or its connection is a candidate; before that, never.
pub proof fn law_a_choice_comes_with_the_direct_upgrade(
    attempt: TargetAttempt,
    upgrade_selected: bool,
)
    ensures
        !attempt.selection_elapsed ==> attempt.settle(upgrade_selected) == TargetPlan::Wait,
        attempt.selection_elapsed && attempt.outcome == Some(DirectUpgradeOutcome::Failed)
            ==> attempt.settle(upgrade_selected) == TargetPlan::Choose,
        attempt.selection_elapsed && (attempt.outcome matches Some(
            DirectUpgradeOutcome::Connected(_),
        )) && upgrade_selected ==> attempt.settle(upgrade_selected) == TargetPlan::Choose,
{
}

/// A direct connection that comes up after the selection window is still used: it is
/// offered, and once its upgrade is reported a choice is made, which is not refused.
pub proof fn law_a_late_direct_upgrade_is_offered_and_chosen(
    attempt: TargetAttempt,
    connection: ConnectionId,
    relayed: bool,
    established: u64,
    finished: u64,
)
    requires
        attempt.valid(),
        attempt.selection_elapsed,
        established + TARGET_SELECTION_WINDOW <= u64::MAX,
        finished + TARGET_SELECTION_WINDOW <= u64::MAX,
    ensures
        ({
            let target = attempt.target;
            let up = EndpointEvent::Established { peer: target, connection, relayed };
            let done = EndpointEvent::DirectUpgradeFinished {
                peer: target,
                outcome: DirectUpgradeOutcome::Connected(connection),
            };
            let after = attempt.observed(up, true, established).observed(done, false, finished);
            &&& attempt.ordered(up) == SelectionOrder::Offer(connection)
            &&& after.outcome == Some(DirectUpgradeOutcome::Connected(connection))
            &&& after.settle(true) == TargetPlan::Choose
            &&& after.refused() is None
            &&& after.selection_deadline == attempt.selection_deadline
        }),
{
}

/// An attempt offers every connection that its target establishes, at any time, and
/// withdraws those that it closes; it measures them only during the selection window, and
/// never acts on another peer.
pub proof fn law_an_attempt_selects_among_its_target(
    attempt: TargetAttempt,
    peer: PeerId,
    connection: ConnectionId,
    relayed: bool,
    round_trip: u64,
)
    ensures
        ({
            let up = EndpointEvent::Established { peer, connection, relayed };
            let down = EndpointEvent::Closed { peer, connection };
            let ping = EndpointEvent::Ping { peer, connection, round_trip: Some(round_trip) };
            &&& peer == attempt.target ==> {
                &&& attempt.ordered(up) == SelectionOrder::Offer(connection)
                &&& attempt.ordered(down) == SelectionOrder::Withdraw(connection)
                &&& attempt.selection_elapsed ==> attempt.ordered(ping) == SelectionOrder::Ignore
                &&& !attempt.selection_elapsed ==> attempt.ordered(ping)
                    == SelectionOrder::Measure(connection, round_trip)
            }
            &&& peer != attempt.target ==> {
                &&& attempt.ordered(up) == SelectionOrder::Ignore
                &&& attempt.ordered(down) == SelectionOrder::Ignore
                &&& attempt.ordered(ping) == SelectionOrder::Ignore
            }
        }),
{
}

/// An attempt learns how the direct upgrade came out from the report on its own target
/// alone, and the last report counts.
pub proof fn law_only_the_target_reports_its_upgrade(attempt: TargetAttempt, event: EndpointEvent)
    ensures
        event matches EndpointEvent::DirectUpgradeFinished { peer, outcome } ==> attempt.outcome_with(
            Some(event),
        ) == (if peer == attempt.target {
            Some(outcome)
        } else {
            attempt.outcome
        }),
        !(event is DirectUpgradeFinished) ==> attempt.outcome_with(Some(event)) == attempt.outcome,
        attempt.outcome_with(None) == attempt.outcome,
{
}

/// The first candidate opens a window of [`TARGET_SELECTION_WINDOW`], cut short by the
/// deadline of the attempt; later candidates do not move it. Until it is over the
/// attempt waits for its end, and after that for the deadline.
pub proof fn law_the_first_target_candidate_opens_the_window(
    attempt: TargetAttempt,
    event: EndpointEvent,
    candidate: bool,
    now: u64,
)
    requires
        attempt.valid(),
        now + TARGET_SELECTION_WINDOW <= u64::MAX,
    ensures
        ({
            let after = attempt.observed(event, candidate, now);
            &&& after.has_candidate <==> attempt.has_candidate || candidate
            &&& after.selection_deadline is Some <==> after.has_candidate
            &&& attempt.has_candidate ==> after.selection_deadline == attempt.selection_deadline
            &&& !attempt.has_candidate && candidate ==> {
                &&& after.selection_deadline->0 <= now + TARGET_SELECTION_WINDOW
                &&& after.selection_deadline->0 <= attempt.connect_deadline
                &&& after.selection_deadline->0 == now + TARGET_SELECTION_WINDOW
                    || after.selection_deadline->0 == attempt.connect_deadline
            }
            &&& after.target == attempt.target && after.policy == attempt.policy
            &&& after.connect_deadline == attempt.connect_deadline
            &&& after.selection_elapsed == attempt.selection_elapsed
        }),
        attempt.has_candidate && !attempt.selection_elapsed ==> attempt.window_open()
            && attempt.wait_deadline() == attempt.selection_deadline->0,
        !attempt.has_candidate || attempt.selection_elapsed ==> !attempt.window_open()
            && attempt.wait_deadline() == attempt.connect_deadline,
{
}

/// A failed direct upgrade refuses the choice exactly when upgrades are asked for; an
/// attempt that runs out of time says whether the target was ever reached.
pub proof fn law_an_attempt_says_why_it_failed(attempt: TargetAttempt)
    ensures
        attempt.refused() == Some(EndpointError::DirectUpgradeFailed) <==> attempt.policy
            == DirectUpgradePolicy::Enabled && attempt.outcome == Some(
            DirectUpgradeOutcome::Failed,
        ),
        attempt.refused() is Some ==> attempt.refused() == Some(
            EndpointError::DirectUpgradeFailed,
        ),
        attempt.unsettled() == EndpointError::TargetUpgradeDidNotSettle <==> attempt.has_candidate,
        attempt.unsettled() == EndpointError::RelayUnavailable <==> !attempt.has_candidate,
{
}

/// The binding of a peer whose direct upgrade has come to rest and that has
/// exactly one connection.
pub fn wait_for_target_quiescence(driver: &EndpointDriver, target: PeerId) -> (binding: Option<
    ConnectionBinding,
>)
    ensures
        binding == if driver.upgrade_settled(target) && driver.connections.of(target).len() == 1 {
            Some(ConnectionBinding { peer: target, connection: driver.connections.of(target)[0] })
        } else {
            None
        },
{
    if driver.direct_upgrade_ready(target) && driver.has_unique_connection(target) {
        match driver.bind(target) {
            Ok(binding) => Some(binding),
            Err(_) => None,
        }
    } else {
        None
    }
}

/// A drain fails when its time is up or the kept connection itself was closed; no other
/// event fails it.
pub proof fn law_what_fails_a_drain(
    event: EndpointEvent,
    keep: Option<ConnectionBinding>,
    binding: ConnectionBinding,
)
    ensures
        drain_verdict(Waited::Expired, keep) == Err::<(), EndpointError>(
            EndpointError::RelayDidNotConverge,
        ),
        drain_verdict(
            Waited::Event(
                EndpointEvent::Closed { peer: binding.peer, connection: binding.connection },
            ),
            Some(binding),
        ) == Err::<(), EndpointError>(EndpointError::SelectedConnectionLost),
        drain_verdict(Waited::Event(event), None) is Ok,
        event != (EndpointEvent::Closed {
            peer: binding.peer,
            connection: binding.connection,
        }) ==> drain_verdict(Waited::Event(event), Some(binding)) is Ok,
{
}

/// The connection of a direct upgrade is known from the report on: the one that the report
/// named, and none if it reported a failure.
pub proof fn law_the_upgraded_connection_is_the_reported_one(
    attempt: TargetAttempt,
    connection: ConnectionId,
    event: EndpointEvent,
    now: u64,
)
    requires
        now + TARGET_SELECTION_WINDOW <= u64::MAX,
    ensures
        ({
            let made = EndpointEvent::DirectUpgradeFinished {
                peer: attempt.target,
                outcome: DirectUpgradeOutcome::Connected(connection),
            };
            let failed = EndpointEvent::DirectUpgradeFinished {
                peer: attempt.target,
                outcome: DirectUpgradeOutcome::Failed,
            };
            &&& attempt.upgraded(Some(made)) == Some(connection)
            &&& attempt.upgraded(Some(failed)) is None
            &&& attempt.upgraded(None) is Some ==> attempt.outcome == Some(
                DirectUpgradeOutcome::Connected(attempt.upgraded(None)->0),
            )
            &&& attempt.outcome == Some(DirectUpgradeOutcome::Connected(connection))
                ==> attempt.upgraded(None) == Some(connection)
            &&& attempt.upgraded(Some(event)) == attempt.observed(event, false, now).upgraded(None)
            &&& !(event is DirectUpgradeFinished) ==> attempt.upgraded(Some(event))
                == attempt.upgraded(None)
        }),
{
}

/// An attempt to reach a target begins with nothing but its target, its deadline and its
/// policy.
pub proof fn law_a_target_attempt_begins_clean(
    target: PeerId,
    connect_deadline: u64,
    policy: DirectUpgradePolicy,
)
    ensures
        ({
            let attempt = TargetAttempt::initial(target, connect_deadline, policy);
            &&& attempt.target == target
            &&& attempt.connect_deadline == connect_deadline
            &&& attempt.policy == policy
            &&& attempt.selection_deadline is None
            &&& !attempt.has_candidate && !attempt.selection_elapsed
            &&& attempt.outcome is None
        }),
{
}

} // verus!
