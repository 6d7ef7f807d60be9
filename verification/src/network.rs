//! Endpoint connection state: the roster of physical connections, the relay
//! reservation, pending relay dials and direct-upgrade attempts, and the
//! decisions taken on them.
//!
//! The swarm itself lives outside. Its events arrive as [`NodeEvent`]; what it
//! has to do in return (connections to close, a listener to remove) is handed
//! back as plain values.

use crate::failure::{Cause, OutsideText};
use vstd::multiset::Multiset;
use vstd::prelude::*;

pub use crate::backoff::{relay_backoff, RelayBackoff};

verus! {

/// One millisecond. All times are counted in nanoseconds.
pub const MILLISECOND: u64 = 1_000_000;

/// One second.
pub const SECOND: u64 = 1_000_000_000;

/// Bound of one attempt to connect to the relay.
pub const CONNECT_TIMEOUT: u64 = 10 * SECOND;

/// Bound of one attempt to settle on a connection to the target.
pub const TARGET_SETTLE_TIMEOUT: u64 = 30 * SECOND;

/// How long relay candidates are collected after the first one.
pub const SELECTION_WINDOW: u64 = 1_500 * MILLISECOND;

/// How long target candidates are collected after the first one.
pub const TARGET_SELECTION_WINDOW: u64 = 1_500 * MILLISECOND;

/// Bound on closing surplus connections.
pub const CONVERGENCE_TIMEOUT: u64 = 2 * SECOND;

/// The number of physical connections kept per peer, and the capacity of the
/// dial and upgrade trackers.
pub const CONNECTION_CAPACITY: usize = 8;

/// How long after the first dial a relay may be dialed again.
pub const RELAY_DIAL_WINDOW: u64 = 1_500 * MILLISECOND;

/// Time kept back from [`CONNECT_TIMEOUT`] for draining losing connections.
pub const RELAY_DRAIN_WINDOW: u64 = 500 * MILLISECOND;

/// The first delay before a relay is tried again.
pub const RELAY_BACKOFF_MIN: u64 = 250 * MILLISECOND;

/// The longest delay before a relay is tried again, without jitter.
pub const RELAY_BACKOFF_MAX: u64 = 5 * SECOND;

/// The time bounds of an endpoint fit into one another: the windows for
/// collecting candidates end before convergence does, convergence before the
/// connect attempt, and a relay dial, a handshake of eight seconds and the
/// drain fit into the connect attempt.
pub proof fn law_time_bounds_are_ordered()
    ensures
        SELECTION_WINDOW < CONVERGENCE_TIMEOUT < CONNECT_TIMEOUT,
        TARGET_SELECTION_WINDOW == SELECTION_WINDOW,
        RELAY_DIAL_WINDOW == SELECTION_WINDOW,
        3 * 8 * SECOND + TARGET_SELECTION_WINDOW < TARGET_SETTLE_TIMEOUT,
        RELAY_DIAL_WINDOW + 8 * SECOND + RELAY_DRAIN_WINDOW <= CONNECT_TIMEOUT,
{
}

/// A peer, by the number that stands for its identity in this process.
#[derive(Debug, Clone, Copy, PartialEq, Eq, Structural)]
pub struct PeerId(pub u64);

/// One physical connection.
#[derive(Debug, Clone, Copy, PartialEq, Eq, Structural)]
pub struct ConnectionId(pub u64);

/// One listener of the swarm.
#[derive(Debug, Clone, Copy, PartialEq, Eq, Structural)]
pub struct ListenerId(pub u64);

/// Why an application protocol stream could not be opened.
#[derive(Debug, Clone, Copy, PartialEq, Eq, Structural)]
pub enum ApplicationStreamError {
    /// The remote does not offer the protocol.
    UnsupportedProtocol,
    /// Any other failure.
    Other,
}

/// Endpoint lifecycle failures before an application protocol begins.
#[derive(Debug, Clone, Copy, PartialEq, Eq, Structural)]
pub enum EndpointError {
    /// The network could not be constructed, with the builder's reason.
    Build(OutsideText),
    /// An operation of the network node failed.
    Node,
    RelayUnavailable,
    RelayDidNotConverge,
    InvalidSelectedAddress,
    Application(ApplicationStreamError),
    BoundConnectionLost,
    AdditionalBoundConnection,
    SelectedConnectionLost,
    TargetUpgradeDidNotSettle,
    DirectUpgradeFailed,
    ConnectionCloseDidNotConverge,
    ReservationAlreadyExists,
    ReservationClosed,
    RelayDialTrackerUnavailable,
}

impl EndpointError {
    /// The text of the message, without that of its cause.
    pub open spec fn text(self) -> Seq<char> {
        match self {
            EndpointError::Build(_) => "failed to construct the endpoint network: "@,
            EndpointError::Node => "an endpoint network operation failed"@,
            EndpointError::RelayUnavailable => "no configured relay transport became usable"@,
            EndpointError::RelayDidNotConverge => {
                "the selected relay connection did not converge"@
            },
            EndpointError::InvalidSelectedAddress => {
                "the selected relay address was not canonical"@
            },
            EndpointError::Application(_) => {
                "an application protocol stream could not be opened"@
            },
            EndpointError::BoundConnectionLost => "the selected physical connection was lost"@,
            EndpointError::AdditionalBoundConnection => {
                "an additional physical connection invalidated the session binding"@
            },
            EndpointError::SelectedConnectionLost => {
                "the selected physical connection disappeared during convergence"@
            },
            EndpointError::TargetUpgradeDidNotSettle => {
                "the endpoint-to-endpoint direct upgrade did not settle before its deadline"@
            },
            EndpointError::DirectUpgradeFailed => {
                "the endpoint-to-endpoint direct upgrade failed"@
            },
            EndpointError::ConnectionCloseDidNotConverge => {
                "the invalidated peer connections did not close before the convergence deadline"@
            },
            EndpointError::ReservationAlreadyExists => {
                "an endpoint already has a relay reservation listener"@
            },
            EndpointError::ReservationClosed => {
                "the selected relay reservation listener closed before becoming usable"@
            },
            EndpointError::RelayDialTrackerUnavailable => {
                "the bounded relay dial tracker is full or still contains an earlier attempt"@
            },
        }
    }

    /// What follows the text of the message.
    pub open spec fn origin(self) -> Option<Cause> {
        match self {
            EndpointError::Build(reason) => Some(Cause::Kept(reason)),
            _ => None,
        }
    }

    /// What follows the message.
    pub fn cause(&self) -> (cause: Option<Cause>)
        ensures
            cause == self.origin(),
    {
        match self {
            EndpointError::Build(reason) => Some(Cause::Kept(*reason)),
            _ => None,
        }
    }

    /// The message shown for the failure, to which the text of
    /// [`EndpointError::cause`] is appended.
    pub fn message(&self) -> (text: String)
        ensures
            text@ == self.text(),
    {
        let text = match self {
            EndpointError::Build(_) => "failed to construct the endpoint network: ",
            EndpointError::Node => "an endpoint network operation failed",
            EndpointError::RelayUnavailable => "no configured relay transport became usable",
            EndpointError::RelayDidNotConverge => "the selected relay connection did not converge",
            EndpointError::InvalidSelectedAddress => "the selected relay address was not canonical",
            EndpointError::Application(_) => "an application protocol stream could not be opened",
            EndpointError::BoundConnectionLost => "the selected physical connection was lost",
            EndpointError::AdditionalBoundConnection => {
                "an additional physical connection invalidated the session binding"
            },
            EndpointError::SelectedConnectionLost => {
                "the selected physical connection disappeared during convergence"
            },
            EndpointError::TargetUpgradeDidNotSettle => {
                "the endpoint-to-endpoint direct upgrade did not settle before its deadline"
            },
            EndpointError::DirectUpgradeFailed => "the endpoint-to-endpoint direct upgrade failed",
            EndpointError::ConnectionCloseDidNotConverge => {
                "the invalidated peer connections did not close before the convergence deadline"
            },
            EndpointError::ReservationAlreadyExists => {
                "an endpoint already has a relay reservation listener"
            },
            EndpointError::ReservationClosed => {
                "the selected relay reservation listener closed before becoming usable"
            },
            EndpointError::RelayDialTrackerUnavailable => {
                "the bounded relay dial tracker is full or still contains an earlier attempt"
            },
        };
        text.to_owned()
    }
}

/// Terminal outcome of the bounded direct-upgrade attempt for one peer.
#[derive(Debug, Clone, Copy, PartialEq, Eq, Structural)]
pub enum DirectUpgradeOutcome {
    Connected(ConnectionId),
    Failed,
}

/// Relevant events emitted by the single-owner endpoint event pump.
#[derive(Debug, Clone, Copy, PartialEq, Eq, Structural)]
pub enum EndpointEvent {
    Established {
        peer: PeerId,
        connection: ConnectionId,
        /// Whether the connection runs through a relay circuit.
        relayed: bool,
    },
    Closed { peer: PeerId, connection: ConnectionId },
    Ping {
        peer: PeerId,
        connection: ConnectionId,
        /// Nanoseconds, when the ping succeeded.
        round_trip: Option<u64>,
    },
    DirectUpgradeFinished { peer: PeerId, outcome: DirectUpgradeOutcome },
    ReservationReady(ReservationListenerId),
    ReservationClosed(ReservationListenerId),
    DialFailed(ConnectionId),
}

/// What the swarm reports.
#[derive(Debug, Clone, Copy, PartialEq, Eq, Structural)]
pub enum NodeEvent {
    ConnectionEstablished { peer: PeerId, connection: ConnectionId, relayed: bool },
    ConnectionClosed { peer: PeerId, connection: ConnectionId },
    Ping { peer: PeerId, connection: ConnectionId, round_trip: Option<u64> },
    /// A direct-upgrade attempt ended, with the new connection when it
    /// succeeded.
    DirectUpgrade { peer: PeerId, connected: Option<ConnectionId> },
    ReservationAccepted,
    NewListenAddr(ListenerId),
    ExpiredListenAddr(ListenerId),
    ListenerClosed(ListenerId),
    OutgoingConnectionError { connection: ConnectionId },
    ListenerError,
    Other,
}

/// The exact local physical connection authorized for one endpoint session.
#[derive(Debug, Clone, Copy, PartialEq, Eq, Structural)]
pub struct ConnectionBinding {
    pub peer: PeerId,
    pub connection: ConnectionId,
}

impl ConnectionBinding {
    /// The peer at the other end.
    #[must_use]
    pub fn peer(self) -> (peer: PeerId)
        ensures
            peer == self.peer,
    {
        self.peer
    }

    /// The authorized connection.
    #[must_use]
    pub fn connection(self) -> (connection: ConnectionId)
        ensures
            connection == self.connection,
    {
        self.connection
    }
}

/// The selected, unique physical connection to the configured relay.
#[derive(Debug, PartialEq, Eq)]
pub struct RelayConnection {
    pub binding: ConnectionBinding,
    /// The canonical relay address, as text.
    pub address: String,
}

impl RelayConnection {
    #[must_use]
    pub fn binding(&self) -> (binding: ConnectionBinding)
        ensures
            binding == self.binding,
    {
        self.binding
    }

    #[must_use]
    pub fn peer(&self) -> (peer: PeerId)
        ensures
            peer == self.binding.peer,
    {
        self.binding.peer()
    }

    #[must_use]
    pub fn address(&self) -> (address: &String)
        ensures
            *address == self.address,
    {
        &self.address
    }
}

/// The exact listener that owns one circuit relay reservation.
#[derive(Debug, Clone, Copy, PartialEq, Eq, Structural)]
pub struct ReservationListenerId(pub ListenerId);

impl ReservationListenerId {
    pub fn new(id: ListenerId) -> (listener: Self)
        ensures
            listener.0 == id,
    {
        ReservationListenerId(id)
    }
}

/// The one reservation of an endpoint.
#[derive(Debug, Clone, Copy, PartialEq, Eq, Structural)]
pub struct ReservationSlot {
    pub listener: ReservationListenerId,
    pub ready: bool,
}

impl ReservationSlot {
    /// A reservation whose listener has no address yet.
    pub fn pending(listener: ReservationListenerId) -> (slot: Self)
        ensures
            slot == (ReservationSlot { listener, ready: false }),
    {
        ReservationSlot { listener, ready: false }
    }

    /// Whether `listener` owns the reservation and it is usable.
    pub fn is_ready(self, listener: ReservationListenerId) -> (ready: bool)
        ensures
            ready == (self.listener == listener && self.ready),
    {
        self.listener == listener && self.ready
    }

    /// The listener got an address. Only the owner counts.
    pub fn mark_ready(&mut self, listener: ReservationListenerId) -> (marked: bool)
        ensures
            marked == (old(self).listener == listener),
            *final(self) == (ReservationSlot {
                ready: old(self).ready || marked,
                listener: old(self).listener,
            }),
    {
        if self.listener != listener {
            return false;
        }
        self.ready = true;
        true
    }

    /// The listener lost its address. Only the owner counts.
    pub fn mark_closed(&mut self, listener: ReservationListenerId) -> (marked: bool)
        ensures
            marked == (old(self).listener == listener),
            *final(self) == (ReservationSlot {
                ready: old(self).ready && !marked,
                listener: old(self).listener,
            }),
    {
        if self.listener != listener {
            return false;
        }
        self.ready = false;
        true
    }
}

/// A usable reservation bound to its selected relay connection and listener.
#[derive(Debug, PartialEq, Eq)]
pub struct ReservationLease {
    pub relay: RelayConnection,
    pub listener: ReservationListenerId,
}

impl ReservationLease {
    #[must_use]
    pub fn relay(&self) -> (relay: &RelayConnection)
        ensures
            *relay == self.relay,
    {
        &self.relay
    }

    #[must_use]
    pub fn listener(&self) -> (listener: ReservationListenerId)
        ensures
            listener == self.listener,
    {
        self.listener
    }

    /// Whether the reservation is ready and the selected relay connection
    /// still exists. Other connections to the relay do not matter.
    #[must_use]
    pub fn is_usable(&self, driver: &EndpointDriver) -> (usable: bool)
        ensures
            usable == (driver.ready_for(self.listener) && driver.connections.of(
                self.relay.binding.peer,
            ).contains(self.relay.binding.connection)),
    {
        driver.reservation_is_ready(self.listener) && driver.has_connection(self.relay.binding())
    }
}

// ---------------------------------------------------------------------------
// The roster of physical connections
// ---------------------------------------------------------------------------

#[derive(Debug, Clone, Copy, PartialEq, Eq, Structural)]
struct BookEntry {
    peer: PeerId,
    connection: ConnectionId,
}

/// The peer already has [`CONNECTION_CAPACITY`] connections.
#[derive(Debug, Clone, Copy, PartialEq, Eq, Structural)]
pub struct RosterFull;

/// Every established physical connection, by peer and in the order in which
/// the connections of a peer were established.
#[derive(Debug)]
pub struct ConnectionBook {
    entries: Vec<BookEntry>,
}

spec fn entries_of(entries: Seq<BookEntry>, peer: PeerId) -> Seq<ConnectionId>
    decreases entries.len(),
{
    if entries.len() == 0 {
        Seq::empty()
    } else {
        let before = entries_of(entries.drop_last(), peer);
        if entries.last().peer == peer {
            before.push(entries.last().connection)
        } else {
            before
        }
    }
}

proof fn lemma_entries_of_member(entries: Seq<BookEntry>, peer: PeerId, connection: ConnectionId)
    ensures
        entries_of(entries, peer).contains(connection) <==> entries.contains(
            BookEntry { peer, connection },
        ),
    decreases entries.len(),
{
    if entries.len() > 0 {
        let init = entries.drop_last();
        let last = entries.last();
        lemma_entries_of_member(init, peer, connection);
        let wanted = BookEntry { peer, connection };
        let before = entries_of(init, peer);
        if entries.contains(wanted) {
            let i = choose|i: int| 0 <= i < entries.len() && entries[i] == wanted;
            if i < init.len() {
                assert(init[i] == wanted);
                assert(before.contains(connection));
                let j = choose|j: int| 0 <= j < before.len() && before[j] == connection;
                assert(entries_of(entries, peer)[j] == connection);
            } else {
                assert(entries_of(entries, peer)[before.len() as int] == connection);
            }
        }
        if entries_of(entries, peer).contains(connection) {
            let all = entries_of(entries, peer);
            let j = choose|j: int| 0 <= j < all.len() && all[j] == connection;
            if j < before.len() {
                assert(before[j] == connection);
                assert(init.contains(wanted));
                let i = choose|i: int| 0 <= i < init.len() && init[i] == wanted;
                assert(entries[i] == wanted);
            } else {
                assert(entries[entries.len() - 1] == wanted);
            }
        }
    }
}

proof fn lemma_entries_of_push(entries: Seq<BookEntry>, entry: BookEntry, peer: PeerId)
    ensures
        entries_of(entries.push(entry), peer) == if entry.peer == peer {
            entries_of(entries, peer).push(entry.connection)
        } else {
            entries_of(entries, peer)
        },
{
    assert(entries.push(entry).drop_last() =~= entries);
}

proof fn lemma_entries_of_remove(entries: Seq<BookEntry>, index: int, peer: PeerId)
    requires
        0 <= index < entries.len(),
        entries.no_duplicates(),
    ensures
        ({
            let gone = entries[index];
            let kept = entries_of(entries.remove(index), peer);
            let all = entries_of(entries, peer);
            &&& gone.peer != peer ==> kept == all
            &&& gone.peer == peer ==> all.contains(gone.connection) && kept == all.remove(
                all.index_of(gone.connection),
            )
        }),
    decreases entries.len(),
{
    let gone = entries[index];
    let init = entries.drop_last();
    let last = entries.last();
    let all = entries_of(entries, peer);
    let before = entries_of(init, peer);
    lemma_entries_of_member(entries, peer, gone.connection);
    lemma_entries_distinct(entries, peer);
    if index == entries.len() - 1 {
        assert(entries.remove(index) =~= init);
        if gone.peer == peer {
            assert(all[before.len() as int] == gone.connection);
            assert(all.index_of(gone.connection) == before.len());
            assert(all.remove(before.len() as int) =~= before);
        }
    } else {
        assert(init.no_duplicates());
        assert(init[index] == gone);
        lemma_entries_of_remove(init, index, peer);
        assert(entries.remove(index).drop_last() =~= init.remove(index));
        assert(entries.remove(index).last() == last);
        if gone.peer == peer {
            let at = before.index_of(gone.connection);
            assert(before[at] == gone.connection);
            assert(all[at] == gone.connection);
            assert(all.index_of(gone.connection) == at);
            if last.peer == peer {
                assert(before.push(last.connection).remove(at) =~= before.remove(at).push(
                    last.connection,
                ));
            }
        }
    }
}

proof fn lemma_entries_distinct(entries: Seq<BookEntry>, peer: PeerId)
    requires
        entries.no_duplicates(),
    ensures
        entries_of(entries, peer).no_duplicates(),
    decreases entries.len(),
{
    if entries.len() > 0 {
        let init = entries.drop_last();
        lemma_entries_distinct(init, peer);
        if entries.last().peer == peer {
            lemma_entries_of_member(init, peer, entries.last().connection);
            if init.contains(entries.last()) {
                let i = choose|i: int| 0 <= i < init.len() && init[i] == entries.last();
                assert(entries[i] == entries[entries.len() - 1]);
            }
        }
    }
}

impl ConnectionBook {
    #[verifier::type_invariant]
    spec fn wf(self) -> bool {
        &&& self.entries@.no_duplicates()
        &&& forall|peer: PeerId|
            (#[trigger] entries_of(self.entries@, peer)).len() <= CONNECTION_CAPACITY
    }

    /// The connections of one peer, oldest first.
    pub closed spec fn of(self, peer: PeerId) -> Seq<ConnectionId> {
        entries_of(self.entries@, peer)
    }

    /// A roster without connections.
    pub fn new() -> (book: Self)
        ensures
            forall|peer: PeerId| (#[trigger] book.of(peer)) == Seq::<ConnectionId>::empty(),
    {
        ConnectionBook { entries: Vec::new() }
    }

    /// The connections of one peer, oldest first: each once, and at most
    /// [`CONNECTION_CAPACITY`] of them.
    pub fn connections(&self, peer: PeerId) -> (connections: Vec<ConnectionId>)
        ensures
            connections@ == self.of(peer),
            connections@.len() <= CONNECTION_CAPACITY,
            connections@.no_duplicates(),
    {
        proof {
            use_type_invariant(self);
            lemma_entries_distinct(self.entries@, peer);
        }
        let mut connections: Vec<ConnectionId> = Vec::new();
        let mut index: usize = 0;
        while index < self.entries.len()
            invariant
                index <= self.entries.len(),
                connections@ == entries_of(self.entries@.take(index as int), peer),
            decreases self.entries.len() - index,
        {
            let entry = self.entries[index];
            if entry.peer == peer {
                connections.push(entry.connection);
            }
            index += 1;
            assert(self.entries@.take(index as int).drop_last() =~= self.entries@.take(index - 1));
        }
        assert(self.entries@.take(index as int) =~= self.entries@);
        connections
    }

    /// The number of connections of one peer.
    pub fn count(&self, peer: PeerId) -> (count: usize)
        ensures
            count == self.of(peer).len(),
            count <= CONNECTION_CAPACITY,
    {
        self.connections(peer).len()
    }

    /// The connection of a peer that has exactly one.
    pub fn unique(&self, peer: PeerId) -> (connection: Option<ConnectionId>)
        ensures
            connection == if self.of(peer).len() == 1 {
                Some(self.of(peer)[0])
            } else {
                None
            },
    {
        let connections = self.connections(peer);
        if connections.len() == 1 {
            Some(connections[0])
        } else {
            None
        }
    }

    /// Whether the peer has this connection.
    pub fn contains(&self, peer: PeerId, connection: ConnectionId) -> (found: bool)
        ensures
            found == self.of(peer).contains(connection),
    {
        match self.position(peer, connection) {
            Some(_) => true,
            None => false,
        }
    }

    fn position(&self, peer: PeerId, connection: ConnectionId) -> (position: Option<usize>)
        ensures
            match position {
                Some(index) => index < self.entries@.len() && self.entries@[index as int] == (
                BookEntry { peer, connection }),
                None => !self.entries@.contains(BookEntry { peer, connection }),
            },
            position is Some <==> self.of(peer).contains(connection),
    {
        proof {
            lemma_entries_of_member(self.entries@, peer, connection);
        }
        let wanted = BookEntry { peer, connection };
        let mut index: usize = 0;
        while index < self.entries.len()
            invariant
                index <= self.entries.len(),
                wanted == (BookEntry { peer, connection }),
                forall|i: int| 0 <= i < index ==> self.entries@[i] != wanted,
                self.of(peer).contains(connection) <==> self.entries@.contains(wanted),
            decreases self.entries.len() - index,
        {
            if self.entries[index] == wanted {
                return Some(index);
            }
            index += 1;
        }
        None
    }

    /// Records a connection, unless the peer is at its bound. A connection
    /// that is recorded already stays recorded once.
    pub fn established(&mut self, peer: PeerId, connection: ConnectionId) -> (result: Result<
        (),
        RosterFull,
    >)
        ensures
            forall|other: PeerId| other != peer ==> #[trigger] final(self).of(other) == old(
                self,
            ).of(other),
            ({
                let before = old(self).of(peer);
                &&& before.contains(connection) ==> result is Ok && final(self).of(peer) == before
                &&& !before.contains(connection) && before.len() < CONNECTION_CAPACITY ==> result
                    is Ok && final(self).of(peer) == before.push(connection)
                &&& !before.contains(connection) && before.len() >= CONNECTION_CAPACITY
                    ==> result is Err && final(self).of(peer) == before
            }),
    {
        proof {
            use_type_invariant(&*self);
        }
        if self.position(peer, connection).is_some() {
            return Ok(());
        }
        if self.count(peer) >= CONNECTION_CAPACITY {
            return Err(RosterFull);
        }
        let entry = BookEntry { peer, connection };
        let mut entries: Vec<BookEntry> = Vec::new();
        std::mem::swap(&mut entries, &mut self.entries);
        let ghost before = entries@;
        entries.push(entry);
        proof {
            assert forall|other: PeerId| (#[trigger] entries_of(entries@, other)).len()
                <= CONNECTION_CAPACITY by {
                lemma_entries_of_push(before, entry, other);
                assert(entries_of(before, other).len() <= CONNECTION_CAPACITY);
            }
            assert(entries@.no_duplicates());
            lemma_entries_of_push(before, entry, peer);
            assert forall|other: PeerId| other != peer implies #[trigger] entries_of(
                entries@,
                other,
            ) == entries_of(before, other) by {
                lemma_entries_of_push(before, entry, other);
            }
        }
        self.entries = entries;
        Ok(())
    }

    /// Forgets a connection, if it was recorded.
    pub fn closed(&mut self, peer: PeerId, connection: ConnectionId)
        ensures
            forall|other: PeerId| other != peer ==> #[trigger] final(self).of(other) == old(
                self,
            ).of(other),
            ({
                let before = old(self).of(peer);
                final(self).of(peer) == if before.contains(connection) {
                    before.remove(before.index_of(connection))
                } else {
                    before
                }
            }),
    {
        proof {
            use_type_invariant(&*self);
        }
        if let Some(index) = self.position(peer, connection) {
            let mut entries: Vec<BookEntry> = Vec::new();
            std::mem::swap(&mut entries, &mut self.entries);
            let ghost before = entries@;
            entries.remove(index);
            proof {
                lemma_entries_of_remove(before, index as int, peer);
                assert forall|other: PeerId| (#[trigger] entries_of(entries@, other)).len()
                    <= CONNECTION_CAPACITY by {
                    lemma_entries_of_remove(before, index as int, other);
                    assert(entries_of(before, other).len() <= CONNECTION_CAPACITY);
                    let all = entries_of(before, other);
                    if other == peer {
                        let at = all.index_of(connection);
                        assert(all[at] == connection);
                    }
                }
                assert forall|other: PeerId| other != peer implies #[trigger] entries_of(
                    entries@,
                    other,
                ) == entries_of(before, other) by {
                    lemma_entries_of_remove(before, index as int, other);
                }
            }
            self.entries = entries;
        }
    }
}

// ---------------------------------------------------------------------------
// Direct-upgrade attempts
// ---------------------------------------------------------------------------

#[derive(Debug, Clone, Copy, PartialEq, Eq, Structural)]
struct DirectUpgradeState {
    peer: PeerId,
    outcome: Option<DirectUpgradeOutcome>,
}

/// The direct-upgrade attempts of at most [`CONNECTION_CAPACITY`] peers, each
/// with its outcome once it has one.
#[derive(Debug)]
pub struct DirectUpgradeTracker {
    states: Vec<DirectUpgradeState>,
}

impl View for DirectUpgradeTracker {
    type V = Map<PeerId, Option<DirectUpgradeOutcome>>;

    closed spec fn view(&self) -> Map<PeerId, Option<DirectUpgradeOutcome>> {
        Map::new(
            |peer: PeerId|
                exists|i: int| 0 <= i < self.states@.len() && self.states@[i].peer == peer,
            |peer: PeerId|
                self.states@[choose|i: int|
                    0 <= i < self.states@.len() && self.states@[i].peer == peer].outcome,
        )
    }
}

impl DirectUpgradeTracker {
    #[verifier::type_invariant]
    spec fn wf(self) -> bool {
        &&& self.states@.len() <= CONNECTION_CAPACITY
        &&& forall|i: int, j: int|
            0 <= i < j < self.states@.len() ==> self.states@[i].peer != self.states@[j].peer
    }

    /// The number of tracked peers.
    pub closed spec fn used(self) -> nat {
        self.states@.len()
    }

    /// Whether an attempt for `peer` can begin.
    pub open spec fn admits(self, peer: PeerId) -> bool {
        self@.contains_key(peer) || self.used() < CONNECTION_CAPACITY
    }

    /// A tracker without attempts.
    pub fn new() -> (tracker: Self)
        ensures
            tracker@ == Map::<PeerId, Option<DirectUpgradeOutcome>>::empty(),
            tracker.used() == 0,
    {
        let tracker = DirectUpgradeTracker { states: Vec::new() };
        assert(tracker@ =~= Map::<PeerId, Option<DirectUpgradeOutcome>>::empty());
        tracker
    }

    fn position(&self, peer: PeerId) -> (position: Option<usize>)
        ensures
            match position {
                Some(index) => index < self.states@.len() && self.states@[index as int].peer == peer
                    && self@.contains_key(peer) && self@[peer]
                    == self.states@[index as int].outcome,
                None => !self@.contains_key(peer),
            },
    {
        proof {
            use_type_invariant(self);
        }
        let mut index: usize = 0;
        while index < self.states.len()
            invariant
                index <= self.states.len(),
                self.wf(),
                forall|i: int| 0 <= i < index ==> self.states@[i].peer != peer,
            decreases self.states.len() - index,
        {
            if self.states[index].peer == peer {
                return Some(index);
            }
            index += 1;
        }
        None
    }

    /// Begins an attempt, forgetting the outcome of an earlier one. Fails when
    /// the tracker is full of other peers.
    pub fn begin(&mut self, peer: PeerId) -> (begun: bool)
        ensures
            begun == old(self).admits(peer),
            final(self)@ == if begun {
                old(self)@.insert(peer, None)
            } else {
                old(self)@
            },
            final(self).used() == if begun && !old(self)@.contains_key(peer) {
                old(self).used() + 1
            } else {
                old(self).used()
            },
    {
        proof {
            use_type_invariant(&*self);
        }
        let fresh = DirectUpgradeState { peer, outcome: None };
        match self.position(peer) {
            Some(index) => {
                let ghost before = *self;
                self.replace(index, fresh);
                assert(self@ =~= before@.insert(peer, None));
                true
            },
            None => {
                if self.states.len() >= CONNECTION_CAPACITY {
                    return false;
                }
                let mut states: Vec<DirectUpgradeState> = Vec::new();
                std::mem::swap(&mut states, &mut self.states);
                states.push(fresh);
                self.states = states;
                proof {
                    lemma_tracker_push(*old(self), *self, fresh);
                }
                true
            },
        }
    }

    fn replace(&mut self, index: usize, state: DirectUpgradeState)
        requires
            index < old(self).states@.len(),
            old(self).states@[index as int].peer == state.peer,
        ensures
            final(self).states@ == old(self).states@.update(index as int, state),
            final(self)@ == old(self)@.insert(state.peer, state.outcome),
    {
        proof {
            use_type_invariant(&*self);
        }
        let mut states: Vec<DirectUpgradeState> = Vec::new();
        std::mem::swap(&mut states, &mut self.states);
        states.set(index, state);
        self.states = states;
        proof {
            let before = *old(self);
            let after = *self;
            assert(after@ =~= before@.insert(state.peer, state.outcome)) by {
                assert forall|peer: PeerId| after@.contains_key(peer) <==> before@.insert(
                    state.peer,
                    state.outcome,
                ).contains_key(peer) by {
                    if after@.contains_key(peer) {
                        let i = choose|i: int|
                            0 <= i < after.states@.len() && after.states@[i].peer == peer;
                        assert(before.states@[i].peer == peer);
                    }
                    if before@.contains_key(peer) {
                        let i = choose|i: int|
                            0 <= i < before.states@.len() && before.states@[i].peer == peer;
                        assert(after.states@[i].peer == peer);
                    }
                    assert(after.states@[index as int].peer == state.peer);
                }
                assert forall|peer: PeerId| after@.contains_key(peer) implies after@[peer]
                    == before@.insert(state.peer, state.outcome)[peer] by {
                    let i = choose|i: int|
                        0 <= i < after.states@.len() && after.states@[i].peer == peer;
                    assert(before.states@[i].peer == peer);
                    let j = choose|j: int|
                        0 <= j < before.states@.len() && before.states@[j].peer == peer;
                    assert(i == j);
                }
            }
        }
    }

    /// Records the outcome of an attempt, if the peer is tracked.
    pub fn finish(&mut self, peer: PeerId, outcome: DirectUpgradeOutcome)
        ensures
            final(self)@ == if old(self)@.contains_key(peer) {
                old(self)@.insert(peer, Some(outcome))
            } else {
                old(self)@
            },
            final(self).used() == old(self).used(),
    {
        if let Some(index) = self.position(peer) {
            self.replace(index, DirectUpgradeState { peer, outcome: Some(outcome) });
        }
    }

    /// The outcome of the peer's attempt, if it has one.
    pub fn outcome(&self, peer: PeerId) -> (outcome: Option<DirectUpgradeOutcome>)
        ensures
            outcome == if self@.contains_key(peer) {
                self@[peer]
            } else {
                None
            },
    {
        match self.position(peer) {
            Some(index) => self.states[index].outcome,
            None => None,
        }
    }

    /// Forgets the peer.
    pub fn remove(&mut self, peer: PeerId)
        ensures
            final(self)@ == old(self)@.remove(peer),
            final(self).used() == if old(self)@.contains_key(peer) {
                (old(self).used() - 1) as nat
            } else {
                old(self).used()
            },
    {
        proof {
            use_type_invariant(&*self);
        }
        if let Some(index) = self.position(peer) {
            let mut states: Vec<DirectUpgradeState> = Vec::new();
            std::mem::swap(&mut states, &mut self.states);
            states.remove(index);
            self.states = states;
            proof {
                lemma_tracker_remove(*old(self), *self, index as int);
            }
        } else {
            assert(self@ =~= self@.remove(peer));
        }
    }
}

proof fn lemma_tracker_push(
    before: DirectUpgradeTracker,
    after: DirectUpgradeTracker,
    fresh: DirectUpgradeState,
)
    requires
        before.wf(),
        !before@.contains_key(fresh.peer),
        after.states@ == before.states@.push(fresh),
    ensures
        after@ == before@.insert(fresh.peer, fresh.outcome),
{
    let n = before.states@.len() as int;
    assert(after.states@[n].peer == fresh.peer);
    assert forall|peer: PeerId| after@.contains_key(peer) <==> before@.insert(
        fresh.peer,
        fresh.outcome,
    ).contains_key(peer) by {
        if before@.contains_key(peer) {
            let i = choose|i: int| 0 <= i < n && before.states@[i].peer == peer;
            assert(after.states@[i].peer == peer);
        }
        if after@.contains_key(peer) {
            let i = choose|i: int| 0 <= i < after.states@.len() && after.states@[i].peer == peer;
            if i < n {
                assert(before.states@[i].peer == peer);
            }
        }
    }
    assert forall|peer: PeerId| after@.contains_key(peer) implies after@[peer] == before@.insert(
        fresh.peer,
        fresh.outcome,
    )[peer] by {
        let i = choose|i: int| 0 <= i < after.states@.len() && after.states@[i].peer == peer;
        if i < n {
            assert(before.states@[i].peer == peer);
            let j = choose|j: int| 0 <= j < n && before.states@[j].peer == peer;
            assert(i == j);
        }
    }
    assert(after@ =~= before@.insert(fresh.peer, fresh.outcome));
}

proof fn lemma_tracker_remove(
    before: DirectUpgradeTracker,
    after: DirectUpgradeTracker,
    index: int,
)
    requires
        before.wf(),
        0 <= index < before.states@.len(),
        after.states@ == before.states@.remove(index),
    ensures
        after@ == before@.remove(before.states@[index].peer),
{
    let gone = before.states@[index].peer;
    assert forall|peer: PeerId| after@.contains_key(peer) <==> before@.remove(gone).contains_key(
        peer,
    ) by {
        if after@.contains_key(peer) {
            let i = choose|i: int| 0 <= i < after.states@.len() && after.states@[i].peer == peer;
            let k = if i < index {
                i
            } else {
                i + 1
            };
            assert(before.states@[k].peer == peer);
        }
        if before@.remove(gone).contains_key(peer) {
            let i = choose|i: int| 0 <= i < before.states@.len() && before.states@[i].peer == peer;
            let k = if i < index {
                i
            } else {
                i - 1
            };
            assert(after.states@[k].peer == peer);
        }
    }
    assert forall|peer: PeerId| after@.contains_key(peer) implies after@[peer] == before@.remove(
        gone,
    )[peer] by {
        let i = choose|i: int| 0 <= i < after.states@.len() && after.states@[i].peer == peer;
        let k = if i < index {
            i
        } else {
            i + 1
        };
        assert(before.states@[k].peer == peer);
        let j = choose|j: int| 0 <= j < before.states@.len() && before.states@[j].peer == peer;
        assert(k == j);
    }
    assert(after@ =~= before@.remove(gone));
}

// ---------------------------------------------------------------------------
// Pending relay dials
// ---------------------------------------------------------------------------

/// The relay dials that have neither connected nor failed yet, at most
/// [`CONNECTION_CAPACITY`] of them.
#[derive(Debug)]
pub struct PendingRelayDials {
    connections: Vec<ConnectionId>,
}

impl View for PendingRelayDials {
    type V = Multiset<ConnectionId>;

    closed spec fn view(&self) -> Multiset<ConnectionId> {
        self.connections@.to_multiset()
    }
}

impl PendingRelayDials {
    #[verifier::type_invariant]
    spec fn wf(self) -> bool {
        self.connections@.len() <= CONNECTION_CAPACITY
    }

    /// No dial is pending.
    pub fn new() -> (dials: Self)
        ensures
            dials@ == Multiset::<ConnectionId>::empty(),
    {
        broadcast use vstd::seq_lib::group_to_multiset_ensures;

        let dials = PendingRelayDials { connections: Vec::new() };
        assert(dials@ =~= Multiset::<ConnectionId>::empty());
        dials
    }

    /// Tracks a dial, while there is room.
    pub fn insert(&mut self, connection: ConnectionId) -> (result: Result<(), EndpointError>)
        ensures
            old(self)@.len() < CONNECTION_CAPACITY ==> result is Ok && final(self)@ == old(
                self,
            )@.insert(connection),
            old(self)@.len() >= CONNECTION_CAPACITY ==> result == Err::<(), EndpointError>(
                EndpointError::RelayDialTrackerUnavailable,
            ) && final(self)@ == old(self)@,
    {
        broadcast use vstd::seq_lib::group_to_multiset_ensures;

        proof {
            use_type_invariant(&*self);
        }
        if self.connections.len() >= CONNECTION_CAPACITY {
            return Err(EndpointError::RelayDialTrackerUnavailable);
        }
        let mut connections: Vec<ConnectionId> = Vec::new();
        std::mem::swap(&mut connections, &mut self.connections);
        connections.push(connection);
        self.connections = connections;
        Ok(())
    }

    /// Stops tracking one dial, if it is tracked.
    pub fn remove(&mut self, connection: ConnectionId)
        ensures
            final(self)@ == old(self)@.remove(connection),
    {
        broadcast use vstd::seq_lib::group_to_multiset_ensures;

        proof {
            use_type_invariant(&*self);
        }
        let mut index: usize = 0;
        while index < self.connections.len()
            invariant
                index <= self.connections.len(),
                self.connections@ == old(self).connections@,
                self.connections@.len() <= CONNECTION_CAPACITY,
                forall|i: int| 0 <= i < index ==> self.connections@[i] != connection,
            ensures
                self.connections@ == old(self).connections@,
                self.connections@.len() <= CONNECTION_CAPACITY,
                index <= self.connections.len(),
                forall|i: int| 0 <= i < index ==> self.connections@[i] != connection,
                index < self.connections.len() ==> self.connections@[index as int] == connection,
            decreases self.connections.len() - index,
        {
            if self.connections[index] == connection {
                break;
            }
            index += 1;
        }
        if index < self.connections.len() {
            let mut connections: Vec<ConnectionId> = Vec::new();
            std::mem::swap(&mut connections, &mut self.connections);
            connections.remove(index);
            self.connections = connections;
        } else {
            proof {
                assert(!self.connections@.contains(connection));
                assert(self@.count(connection) == 0);
                assert(self@ =~= self@.remove(connection));
            }
        }
    }

    /// Whether no dial is pending.
    pub fn is_empty(&self) -> (empty: bool)
        ensures
            empty == (self@.len() == 0),
    {
        broadcast use vstd::seq_lib::group_to_multiset_ensures;

        self.connections.len() == 0
    }
}

// ---------------------------------------------------------------------------
// The endpoint
// ---------------------------------------------------------------------------

/// How the roster of the bound peer looks.
#[derive(Debug, Clone, Copy, PartialEq, Eq, Structural)]
pub enum BindingState {
    /// The authorized connection is the only one.
    Bound,
    /// The peer has no connection.
    Lost,
    /// The peer has another connection, alone or in addition.
    Ambiguous,
}

impl BindingState {
    /// The state of `binding` when the bound peer has `connections`.
    pub open spec fn over(
        connections: Seq<ConnectionId>,
        binding: ConnectionBinding,
    ) -> BindingState {
        if connections.len() == 0 {
            BindingState::Lost
        } else if connections == seq![binding.connection] {
            BindingState::Bound
        } else {
            BindingState::Ambiguous
        }
    }

    /// What the state means for the session.
    pub open spec fn verdict(self) -> Result<(), EndpointError> {
        match self {
            BindingState::Bound => Ok(()),
            BindingState::Lost => Err(EndpointError::BoundConnectionLost),
            BindingState::Ambiguous => Err(EndpointError::AdditionalBoundConnection),
        }
    }
}

/// The binding of a peer that has these connections.
pub open spec fn bound_to(peer: PeerId, connections: Seq<ConnectionId>) -> Result<
    ConnectionBinding,
    EndpointError,
> {
    if connections.len() == 0 {
        Err(EndpointError::BoundConnectionLost)
    } else if connections.len() == 1 {
        Ok(ConnectionBinding { peer, connection: connections[0] })
    } else {
        Err(EndpointError::AdditionalBoundConnection)
    }
}

/// A verdict on a binding, with the connections to close on its account.
#[derive(Debug, PartialEq, Eq)]
pub struct Enforced {
    pub result: Result<(), EndpointError>,
    pub close: Vec<ConnectionId>,
}

impl Enforced {
    /// The verdict on `binding` over the roster of its peer. All connections of
    /// the peer are closed when an additional one invalidated the binding, and
    /// none otherwise.
    pub open spec fn over(
        self,
        connections: Seq<ConnectionId>,
        binding: ConnectionBinding,
    ) -> bool {
        let state = BindingState::over(connections, binding);
        &&& self.result == state.verdict()
        &&& self.close@ == if state == BindingState::Ambiguous {
            connections
        } else {
            Seq::empty()
        }
    }

    /// Nothing to say and nothing to close.
    pub open spec fn nothing(self) -> bool {
        &&& self.result == Ok::<(), EndpointError>(())
        &&& self.close@ == Seq::<ConnectionId>::empty()
    }
}

/// What an event of the swarm comes to.
#[derive(Debug, Clone, Copy, PartialEq, Eq, Structural)]
pub struct NodeStep {
    /// The state-bearing event, already applied, if it was one.
    pub event: Option<EndpointEvent>,
    /// A connection beyond a bound, to be closed.
    pub close: Option<ConnectionId>,
}

/// The connection state of an endpoint whose swarm has exactly one owner.
#[derive(Debug)]
pub struct EndpointDriver {
    pub local: PeerId,
    pub connections: ConnectionBook,
    pub reservation: Option<ReservationSlot>,
    pub pending_relay_dials: PendingRelayDials,
    pub direct_upgrades: DirectUpgradeTracker,
}

impl EndpointDriver {
    /// `listener` owns the reservation and it is usable.
    pub open spec fn ready_for(self, listener: ReservationListenerId) -> bool {
        self.reservation == Some(ReservationSlot { listener, ready: true })
    }

    /// Whether the direct upgrade to `peer` has come to rest: it failed, or the
    /// connection that it made exists.
    pub open spec fn upgrade_settled(self, peer: PeerId) -> bool {
        self.direct_upgrades@.contains_key(peer) && match self.direct_upgrades@[peer] {
            Some(DirectUpgradeOutcome::Connected(connection)) => self.connections.of(
                peer,
            ).contains(connection),
            Some(DirectUpgradeOutcome::Failed) => true,
            None => false,
        }
    }

    /// The rosters of all peers but `peer` are those of `before`.
    pub open spec fn keeps_other_rosters(self, before: EndpointDriver, peer: PeerId) -> bool {
        forall|other: PeerId|
            other != peer ==> #[trigger] self.connections.of(other) == before.connections.of(other)
    }

    /// An endpoint without connections.
    pub fn new(local: PeerId) -> (driver: Self)
        ensures
            driver.local == local,
            forall|peer: PeerId|
                (#[trigger] driver.connections.of(peer)) == Seq::<ConnectionId>::empty(),
            driver.reservation is None,
            driver.pending_relay_dials@ == Multiset::<ConnectionId>::empty(),
            driver.direct_upgrades@ == Map::<PeerId, Option<DirectUpgradeOutcome>>::empty(),
            driver.direct_upgrades.used() == 0,
    {
        EndpointDriver {
            local,
            connections: ConnectionBook::new(),
            reservation: None,
            pending_relay_dials: PendingRelayDials::new(),
            direct_upgrades: DirectUpgradeTracker::new(),
        }
    }

    #[must_use]
    pub fn peer_id(&self) -> (peer: PeerId)
        ensures
            peer == self.local,
    {
        self.local
    }

    #[must_use]
    pub fn connection_count(&self, peer: PeerId) -> (count: usize)
        ensures
            count == self.connections.of(peer).len(),
    {
        self.connections.count(peer)
    }

    #[must_use]
    pub fn has_unique_connection(&self, peer: PeerId) -> (unique: bool)
        ensures
            unique == (self.connections.of(peer).len() == 1),
    {
        self.connections.unique(peer).is_some()
    }

    /// Whether the direct upgrade to `peer` has come to rest.
    pub fn direct_upgrade_ready(&self, peer: PeerId) -> (ready: bool)
        ensures
            ready == self.upgrade_settled(peer),
    {
        match self.direct_upgrades.outcome(peer) {
            Some(DirectUpgradeOutcome::Connected(connection)) => {
                self.connections.contains(peer, connection)
            },
            Some(DirectUpgradeOutcome::Failed) => true,
            None => false,
        }
    }

    /// Authorizes the only connection of a peer.
    pub fn bind(&self, peer: PeerId) -> (result: Result<ConnectionBinding, EndpointError>)
        ensures
            result == bound_to(peer, self.connections.of(peer)),
    {
        match self.connections.unique(peer) {
            Some(connection) => Ok(ConnectionBinding { peer, connection }),
            None => {
                if self.connections.count(peer) == 0 {
                    Err(EndpointError::BoundConnectionLost)
                } else {
                    Err(EndpointError::AdditionalBoundConnection)
                }
            },
        }
    }

    /// Whether the authorized connection exists, alone or not.
    pub fn has_connection(&self, binding: ConnectionBinding) -> (found: bool)
        ensures
            found == self.connections.of(binding.peer).contains(binding.connection),
    {
        self.connections.contains(binding.peer, binding.connection)
    }

    /// Whether the authorized connection is the only one of its peer.
    pub fn validate_binding(&self, binding: ConnectionBinding) -> (result: Result<
        (),
        EndpointError,
    >)
        ensures
            result == BindingState::over(
                self.connections.of(binding.peer),
                binding,
            ).verdict(),
    {
        match self.binding_state(binding) {
            BindingState::Bound => Ok(()),
            BindingState::Lost => Err(EndpointError::BoundConnectionLost),
            BindingState::Ambiguous => Err(EndpointError::AdditionalBoundConnection),
        }
    }

    /// How the roster of the bound peer looks.
    pub fn binding_state(&self, binding: ConnectionBinding) -> (state: BindingState)
        ensures
            state == BindingState::over(self.connections.of(binding.peer), binding),
    {
        let ghost connections = self.connections.of(binding.peer);
        match self.connections.unique(binding.peer) {
            Some(connection) => {
                assert(connections =~= seq![connection]);
                assert(seq![binding.connection][0] == binding.connection);
                if connection == binding.connection {
                    BindingState::Bound
                } else {
                    BindingState::Ambiguous
                }
            },
            None => {
                if self.connections.count(binding.peer) == 0 {
                    BindingState::Lost
                } else {
                    assert(seq![binding.connection].len() == 1);
                    BindingState::Ambiguous
                }
            },
        }
    }

    /// Checks a binding. When an additional connection invalidated it, every
    /// connection of the peer has to be closed.
    pub fn enforce_binding(&self, binding: ConnectionBinding) -> (enforced: Enforced)
        ensures
            enforced.over(self.connections.of(binding.peer), binding),
    {
        let result = self.validate_binding(binding);
        match result {
            Err(EndpointError::AdditionalBoundConnection) => {
                Enforced { result, close: self.close_bound_peer(binding.peer) }
            },
            _ => Enforced { result, close: Vec::new() },
        }
    }

    /// The connections to close so that none of the peer is left.
    pub fn close_bound_peer(&self, peer: PeerId) -> (close: Vec<ConnectionId>)
        ensures
            close@ == self.connections.of(peer),
    {
        self.connections.connections(peer)
    }

    /// The connections to close so that only the authorized one is left.
    pub fn close_connections_except(&self, binding: ConnectionBinding) -> (close: Vec<
        ConnectionId,
    >)
        ensures
            close@ == self.connections.of(binding.peer).filter(
                |connection: ConnectionId| connection != binding.connection,
            ),
    {
        let connections = self.connections.connections(binding.peer);
        let mut close: Vec<ConnectionId> = Vec::new();
        let mut index: usize = 0;
        let ghost others = |connection: ConnectionId| connection != binding.connection;
        while index < connections.len()
            invariant
                index <= connections.len(),
                others == (|connection: ConnectionId| connection != binding.connection),
                close@ == connections@.take(index as int).filter(others),
            decreases connections.len() - index,
        {
            proof {
                reveal(Seq::filter);
                assert(connections@.take(index + 1).drop_last() =~= connections@.take(
                    index as int,
                ));
            }
            if connections[index] != binding.connection {
                close.push(connections[index]);
            }
            index += 1;
        }
        assert(connections@.take(index as int) =~= connections@);
        close
    }

    /// Whether a reservation can be requested: an endpoint has at most one.
    pub fn check_reserve(&self) -> (result: Result<(), EndpointError>)
        ensures
            result == if self.reservation is Some {
                Err::<(), EndpointError>(EndpointError::ReservationAlreadyExists)
            } else {
                Ok(())
            },
    {
        if self.reservation.is_some() {
            return Err(EndpointError::ReservationAlreadyExists);
        }
        Ok(())
    }

    /// Takes up the reservation whose listener the swarm has created, or passes
    /// on that it could not create one.
    pub fn reserve(&mut self, created: Result<ListenerId, EndpointError>) -> (result: Result<
        ReservationListenerId,
        EndpointError,
    >)
        ensures
            final(self).local == old(self).local,
            final(self).connections == old(self).connections,
            final(self).pending_relay_dials == old(self).pending_relay_dials,
            final(self).direct_upgrades == old(self).direct_upgrades,
            old(self).reservation is Some ==> result == Err::<ReservationListenerId, EndpointError>(
                EndpointError::ReservationAlreadyExists,
            ) && final(self).reservation == old(self).reservation,
            old(self).reservation is None ==> match created {
                Ok(listener) => result == Ok::<ReservationListenerId, EndpointError>(
                    ReservationListenerId(listener),
                ) && final(self).reservation == Some(
                    ReservationSlot { listener: ReservationListenerId(listener), ready: false },
                ),
                Err(error) => result == Err::<ReservationListenerId, EndpointError>(error)
                    && final(self).reservation is None,
            },
    {
        self.check_reserve()?;
        match created {
            Ok(id) => {
                let listener = ReservationListenerId::new(id);
                self.reservation = Some(ReservationSlot::pending(listener));
                Ok(listener)
            },
            Err(error) => Err(error),
        }
    }

    /// Gives the reservation up if `listener` owns it. The result says whether
    /// the listener has to be removed from the swarm.
    pub fn remove_reservation(&mut self, listener: ReservationListenerId) -> (removed: bool)
        ensures
            removed == (old(self).reservation matches Some(slot) && slot.listener == listener),
            *final(self) == (EndpointDriver {
                reservation: if removed {
                    None
                } else {
                    old(self).reservation
                },
                ..*old(self)
            }),
    {
        match self.reservation {
            Some(slot) => {
                if slot.listener == listener {
                    self.reservation = None;
                    return true;
                }
                false
            },
            None => false,
        }
    }

    /// Whether `listener` owns the reservation and it is usable.
    #[must_use]
    pub fn reservation_is_ready(&self, listener: ReservationListenerId) -> (ready: bool)
        ensures
            ready == self.ready_for(listener),
    {
        match self.reservation {
            Some(slot) => slot.is_ready(listener),
            None => false,
        }
    }

    /// What [`Self::next`] does to the endpoint, and what it hands out.
    pub open spec fn applies(
        self,
        before: EndpointDriver,
        event: NodeEvent,
        step: NodeStep,
    ) -> bool {
        &&& self.local == before.local
        &&& match event {
            NodeEvent::ConnectionEstablished { peer, connection, relayed } => {
                self.records(before, peer, connection, relayed, step)
            },
            NodeEvent::ConnectionClosed { peer, connection } => {
                let roster = before.connections.of(peer);
                let left = if roster.contains(connection) {
                    roster.remove(roster.index_of(connection))
                } else {
                    roster
                };
                &&& step == NodeStep {
                    event: Some(EndpointEvent::Closed { peer, connection }),
                    close: None,
                }
                &&& self.connections.of(peer) == left
                &&& self.keeps_other_rosters(before, peer)
                &&& self.direct_upgrades@ == if left.len() == 0 {
                    before.direct_upgrades@.remove(peer)
                } else {
                    before.direct_upgrades@
                }
                &&& self.direct_upgrades.used() == if left.len() == 0
                    && before.direct_upgrades@.contains_key(peer) {
                    before.direct_upgrades.used() - 1
                } else {
                    before.direct_upgrades.used() as int
                }
                &&& self.reservation == before.reservation
                &&& self.pending_relay_dials@ == before.pending_relay_dials@
            },
            NodeEvent::Ping { peer, connection, round_trip } => {
                &&& step == NodeStep {
                    event: Some(EndpointEvent::Ping { peer, connection, round_trip }),
                    close: None,
                }
                &&& self == before
            },
            NodeEvent::DirectUpgrade { peer, connected } => {
                let outcome = match connected {
                    Some(connection) => DirectUpgradeOutcome::Connected(connection),
                    None => DirectUpgradeOutcome::Failed,
                };
                &&& step == NodeStep {
                    event: Some(EndpointEvent::DirectUpgradeFinished { peer, outcome }),
                    close: None,
                }
                &&& self.connections == before.connections
                &&& self.reservation == before.reservation
                &&& self.pending_relay_dials == before.pending_relay_dials
                &&& self.direct_upgrades@ == if before.direct_upgrades@.contains_key(peer) {
                    before.direct_upgrades@.insert(peer, Some(outcome))
                } else {
                    before.direct_upgrades@
                }
                &&& self.direct_upgrades.used() == before.direct_upgrades.used()
            },
            NodeEvent::NewListenAddr(id) => {
                let listener = ReservationListenerId(id);
                let owned = before.reservation matches Some(slot) && slot.listener == listener;
                &&& step == NodeStep {
                    event: if owned {
                        Some(EndpointEvent::ReservationReady(listener))
                    } else {
                        None
                    },
                    close: None,
                }
                &&& self == EndpointDriver {
                    reservation: if owned {
                        Some(ReservationSlot { listener, ready: true })
                    } else {
                        before.reservation
                    },
                    ..before
                }
            },
            NodeEvent::ExpiredListenAddr(id) | NodeEvent::ListenerClosed(id) => {
                let listener = ReservationListenerId(id);
                let owned = before.reservation matches Some(slot) && slot.listener == listener;
                &&& step == NodeStep {
                    event: if owned {
                        Some(EndpointEvent::ReservationClosed(listener))
                    } else {
                        None
                    },
                    close: None,
                }
                &&& self == EndpointDriver {
                    reservation: if owned {
                        Some(ReservationSlot { listener, ready: false })
                    } else {
                        before.reservation
                    },
                    ..before
                }
            },
            NodeEvent::OutgoingConnectionError { connection } => {
                &&& step == NodeStep {
                    event: Some(EndpointEvent::DialFailed(connection)),
                    close: None,
                }
                &&& self.connections == before.connections
                &&& self.reservation == before.reservation
                &&& self.direct_upgrades == before.direct_upgrades
                &&& self.pending_relay_dials@ == before.pending_relay_dials@.remove(connection)
            },
            NodeEvent::ReservationAccepted | NodeEvent::ListenerError | NodeEvent::Other => {
                &&& step == NodeStep { event: None, close: None }
                &&& self == before
            },
        }
    }

    /// What an established connection does to the endpoint, and what is handed
    /// out: an event, or the connection to close when a bound is reached.
    pub open spec fn records(
        self,
        before: EndpointDriver,
        peer: PeerId,
        connection: ConnectionId,
        relayed: bool,
        step: NodeStep,
    ) -> bool {
        let roster = before.connections.of(peer);
        let upgradable = !relayed || before.direct_upgrades.admits(peer);
        let fits = roster.contains(connection) || roster.len() < CONNECTION_CAPACITY;
        let accepted = upgradable && fits;
        &&& step == if accepted {
            NodeStep {
                event: Some(EndpointEvent::Established { peer, connection, relayed }),
                close: None,
            }
        } else {
            NodeStep { event: None, close: Some(connection) }
        }
        &&& self.reservation == before.reservation
        &&& self.pending_relay_dials@ == before.pending_relay_dials@.remove(connection)
        &&& self.direct_upgrades@ == if relayed && upgradable {
            before.direct_upgrades@.insert(peer, None)
        } else {
            before.direct_upgrades@
        }
        &&& self.direct_upgrades.used() == if relayed && upgradable
            && !before.direct_upgrades@.contains_key(peer) {
            before.direct_upgrades.used() + 1
        } else {
            before.direct_upgrades.used()
        }
        &&& self.connections.of(peer) == if accepted && !roster.contains(connection) {
            roster.push(connection)
        } else {
            roster
        }
        &&& self.keeps_other_rosters(before, peer)
    }

    /// Applies one event of the swarm.
    pub fn next(&mut self, event: NodeEvent) -> (step: NodeStep)
        ensures
            final(self).applies(*old(self), event, step),
    {
        let nothing = NodeStep { event: None, close: None };
        match event {
            NodeEvent::ConnectionEstablished { peer, connection, relayed } => {
                self.record_established(peer, connection, relayed)
            },
            NodeEvent::ConnectionClosed { peer, connection } => {
                self.connections.closed(peer, connection);
                if self.connections.count(peer) == 0 {
                    self.direct_upgrades.remove(peer);
                }
                NodeStep {
                    event: Some(EndpointEvent::Closed { peer, connection }),
                    close: None,
                }
            },
            NodeEvent::Ping { peer, connection, round_trip } => {
                NodeStep {
                    event: Some(EndpointEvent::Ping { peer, connection, round_trip }),
                    close: None,
                }
            },
            NodeEvent::DirectUpgrade { peer, connected } => {
                let outcome = match connected {
                    Some(connection) => DirectUpgradeOutcome::Connected(connection),
                    None => DirectUpgradeOutcome::Failed,
                };
                self.direct_upgrades.finish(peer, outcome);
                NodeStep {
                    event: Some(EndpointEvent::DirectUpgradeFinished { peer, outcome }),
                    close: None,
                }
            },
            NodeEvent::NewListenAddr(id) => {
                let listener = ReservationListenerId::new(id);
                if let Some(slot) = self.reservation {
                    let mut slot = slot;
                    if slot.mark_ready(listener) {
                        self.reservation = Some(slot);
                        return NodeStep {
                            event: Some(EndpointEvent::ReservationReady(listener)),
                            close: None,
                        };
                    }
                }
                nothing
            },
            NodeEvent::ExpiredListenAddr(id) | NodeEvent::ListenerClosed(id) => {
                let listener = ReservationListenerId::new(id);
                if let Some(slot) = self.reservation {
                    let mut slot = slot;
                    if slot.mark_closed(listener) {
                        self.reservation = Some(slot);
                        return NodeStep {
                            event: Some(EndpointEvent::ReservationClosed(listener)),
                            close: None,
                        };
                    }
                }
                nothing
            },
            NodeEvent::OutgoingConnectionError { connection } => {
                self.pending_relay_dials.remove(connection);
                NodeStep { event: Some(EndpointEvent::DialFailed(connection)), close: None }
            },
            NodeEvent::ReservationAccepted | NodeEvent::ListenerError | NodeEvent::Other => nothing,
        }
    }

    /// Records an established connection. A relayed one begins a direct
    /// upgrade; one beyond a bound has to be closed.
    pub fn record_established(
        &mut self,
        peer: PeerId,
        connection: ConnectionId,
        relayed: bool,
    ) -> (step: NodeStep)
        ensures
            final(self).local == old(self).local,
            final(self).records(*old(self), peer, connection, relayed, step),
    {
        self.pending_relay_dials.remove(connection);
        if relayed && !self.direct_upgrades.begin(peer) {
            return NodeStep { event: None, close: Some(connection) };
        }
        match self.connections.established(peer, connection) {
            Ok(()) => NodeStep {
                event: Some(EndpointEvent::Established { peer, connection, relayed }),
                close: None,
            },
            Err(_) => NodeStep { event: None, close: Some(connection) },
        }
    }
}

/// Whether an event may have changed what a binding rests on.
pub open spec fn affects_binding(event: EndpointEvent, binding: ConnectionBinding) -> bool {
    match event {
        EndpointEvent::Established { peer, .. } => peer == binding.peer,
        EndpointEvent::Closed { peer, .. } => peer == binding.peer,
        _ => false,
    }
}

/// Checks a binding again after an event that may have changed it.
pub fn enforce_binding_after_event(
    driver: &EndpointDriver,
    binding: ConnectionBinding,
    event: &EndpointEvent,
) -> (enforced: Enforced)
    ensures
        affects_binding(*event, binding) ==> enforced.over(
            driver.connections.of(binding.peer),
            binding,
        ),
        !affects_binding(*event, binding) ==> enforced.nothing(),
{
    let affects = match event {
        EndpointEvent::Established { peer, .. } => *peer == binding.peer,
        EndpointEvent::Closed { peer, .. } => *peer == binding.peer,
        _ => false,
    };
    if affects {
        driver.enforce_binding(binding)
    } else {
        Enforced { result: Ok(()), close: Vec::new() }
    }
}

/// Hands out the result of work done under a binding, if the binding still
/// holds. The connections to close come with it.
pub fn finish_bound_output<T>(
    driver: &EndpointDriver,
    binding: ConnectionBinding,
    output: T,
) -> (finished: (Result<T, EndpointError>, Vec<ConnectionId>))
    ensures
        ({
            let state = BindingState::over(driver.connections.of(binding.peer), binding);
            &&& finished.0 == match state.verdict() {
                Ok(_) => Ok::<T, EndpointError>(output),
                Err(error) => Err(error),
            }
            &&& finished.1@ == if state == BindingState::Ambiguous {
                driver.connections.of(binding.peer)
            } else {
                Seq::empty()
            }
        }),
{
    let enforced = driver.enforce_binding(binding);
    match enforced.result {
        Ok(()) => (Ok(output), enforced.close),
        Err(error) => (Err(error), enforced.close),
    }
}

// ---------------------------------------------------------------------------
// Laws
// ---------------------------------------------------------------------------

/// A further connection of a bound peer that the endpoint accepts invalidates the
/// binding; one that it refuses leaves the binding as it is.
pub proof fn law_a_further_connection_invalidates_a_binding(
    before: EndpointDriver,
    after: EndpointDriver,
    binding: ConnectionBinding,
    connection: ConnectionId,
    relayed: bool,
    step: NodeStep,
)
    requires
        after.applies(
            before,
            (NodeEvent::ConnectionEstablished { peer: binding.peer, connection, relayed }),
            step,
        ),
        before.connections.of(binding.peer) == seq![binding.connection],
        connection != binding.connection,
    ensures
        BindingState::over(after.connections.of(binding.peer), binding) == if step.close is None {
            BindingState::Ambiguous
        } else {
            BindingState::Bound
        },
{
    assert(before.connections.of(binding.peer)[0] == binding.connection);
    assert(!before.connections.of(binding.peer).contains(connection));
    assert(seq![binding.connection].len() == 1);
}

/// Nothing that happens to another peer touches a binding.
pub proof fn law_other_peers_do_not_touch_a_binding(
    before: EndpointDriver,
    after: EndpointDriver,
    binding: ConnectionBinding,
    event: NodeEvent,
    step: NodeStep,
)
    requires
        after.applies(before, event, step),
        match event {
            NodeEvent::ConnectionEstablished { peer, .. } => peer != binding.peer,
            NodeEvent::ConnectionClosed { peer, .. } => peer != binding.peer,
            _ => true,
        },
    ensures
        after.connections.of(binding.peer) == before.connections.of(binding.peer),
{
}

/// No event makes the roster of a peer, or the tracker of direct upgrades, longer
/// than [`CONNECTION_CAPACITY`].
pub proof fn law_rosters_stay_bounded(
    before: EndpointDriver,
    after: EndpointDriver,
    event: NodeEvent,
    step: NodeStep,
    peer: PeerId,
)
    requires
        after.applies(before, event, step),
        before.connections.of(peer).len() <= CONNECTION_CAPACITY,
        before.direct_upgrades.used() <= CONNECTION_CAPACITY,
    ensures
        after.connections.of(peer).len() <= CONNECTION_CAPACITY,
        after.direct_upgrades.used() <= CONNECTION_CAPACITY,
{
}

/// The close of a peer's last connection forgets its direct upgrade, so that the
/// next connection begins anew.
pub proof fn law_the_last_close_forgets_the_upgrade(
    before: EndpointDriver,
    after: EndpointDriver,
    peer: PeerId,
    connection: ConnectionId,
    step: NodeStep,
)
    requires
        after.applies(before, (NodeEvent::ConnectionClosed { peer, connection }), step),
        before.connections.of(peer) == seq![connection],
    ensures
        after.connections.of(peer).len() == 0,
        !after.direct_upgrades@.contains_key(peer),
        !after.upgrade_settled(peer),
{
    let roster = before.connections.of(peer);
    assert(roster[0] == connection);
    assert(roster.contains(connection));
}

/// A connection that fits is recorded and reported, as the last of its peer's; its dial is
/// no longer pending, and a relayed one begins a direct upgrade. One beyond a bound is
/// closed and not reported, and leaves the roster as it was.
pub proof fn law_a_connection_is_recorded_or_closed(
    before: EndpointDriver,
    after: EndpointDriver,
    peer: PeerId,
    connection: ConnectionId,
    relayed: bool,
    step: NodeStep,
)
    requires
        after.applies(
            before,
            (NodeEvent::ConnectionEstablished { peer, connection, relayed }),
            step,
        ),
    ensures
        ({
            let roster = before.connections.of(peer);
            let upgradable = !relayed || before.direct_upgrades@.contains_key(peer)
                || before.direct_upgrades.used() < CONNECTION_CAPACITY;
            let accepted = upgradable && (roster.contains(connection) || roster.len()
                < CONNECTION_CAPACITY);
            &&& accepted ==> {
                &&& step.event == Some(EndpointEvent::Established { peer, connection, relayed })
                &&& step.close is None
                &&& after.connections.of(peer).contains(connection)
                &&& !roster.contains(connection) ==> after.connections.of(peer) == roster.push(
                    connection,
                )
                &&& roster.contains(connection) ==> after.connections.of(peer) == roster
                &&& relayed ==> after.direct_upgrades@.contains_key(peer)
                    && after.direct_upgrades@[peer] is None
                &&& !relayed ==> after.direct_upgrades@ == before.direct_upgrades@
            }
            &&& !accepted ==> {
                &&& step.event is None
                &&& step.close == Some(connection)
                &&& after.connections.of(peer) == roster
            }
            &&& after.reservation == before.reservation
            &&& after.pending_relay_dials@ == before.pending_relay_dials@.remove(connection)
            &&& forall|other: PeerId|
                other != peer ==> #[trigger] after.connections.of(other) == before.connections.of(
                    other,
                )
        }),
{
    let roster = before.connections.of(peer);
    if !roster.contains(connection) {
        assert(roster.push(connection)[roster.len() as int] == connection);
    }
}

/// A closed connection is reported and leaves the roster of its peer; the others stay, and
/// so does everything else.
pub proof fn law_a_closed_connection_leaves_the_roster(
    before: EndpointDriver,
    after: EndpointDriver,
    peer: PeerId,
    connection: ConnectionId,
    other: ConnectionId,
    step: NodeStep,
)
    requires
        after.applies(before, (NodeEvent::ConnectionClosed { peer, connection }), step),
        other != connection,
    ensures
        step.event == Some(EndpointEvent::Closed { peer, connection }),
        step.close is None,
        after.connections.of(peer).contains(other) <==> before.connections.of(peer).contains(other),
        before.connections.of(peer).contains(connection) ==> after.connections.of(peer).len() + 1
            == before.connections.of(peer).len(),
        !before.connections.of(peer).contains(connection) ==> after.connections.of(peer)
            == before.connections.of(peer),
        before.connections.of(peer).no_duplicates() ==> !after.connections.of(peer).contains(
            connection,
        ),
        after.connections.of(peer).len() > 0 ==> after.direct_upgrades@ == before.direct_upgrades@,
        forall|third: PeerId|
            third != peer ==> #[trigger] after.connections.of(third) == before.connections.of(third),
{
    let roster = before.connections.of(peer);
    let left = after.connections.of(peer);
    if roster.contains(connection) {
        let at = roster.index_of(connection);
        assert(0 <= at < roster.len() && roster[at] == connection);
        assert(left == roster.remove(at));
        if roster.contains(other) {
            let i = choose|i: int| 0 <= i < roster.len() && roster[i] == other;
            if i < at {
                assert(left[i] == other);
            } else {
                assert(left[i - 1] == other);
            }
        }
        if left.contains(other) {
            let i = choose|i: int| 0 <= i < left.len() && left[i] == other;
            if i < at {
                assert(roster[i] == other);
            } else {
                assert(roster[i + 1] == other);
            }
        }
        if roster.no_duplicates() && left.contains(connection) {
            let i = choose|i: int| 0 <= i < left.len() && left[i] == connection;
            if i < at {
                assert(roster[i] == connection);
            } else {
                assert(roster[i + 1] == connection);
            }
        }
    }
}

/// A round trip is reported as it was measured and changes nothing. A direct upgrade is
/// reported as it came out, and noted for a peer that was upgrading.
pub proof fn law_measurements_and_upgrades_are_reported(
    before: EndpointDriver,
    after: EndpointDriver,
    peer: PeerId,
    connection: ConnectionId,
    round_trip: Option<u64>,
    connected: Option<ConnectionId>,
    step: NodeStep,
)
    ensures
        after.applies(before, (NodeEvent::Ping { peer, connection, round_trip }), step) ==> {
            &&& step.event == Some(EndpointEvent::Ping { peer, connection, round_trip })
            &&& step.close is None
            &&& after == before
        },
        after.applies(before, (NodeEvent::DirectUpgrade { peer, connected }), step) ==> {
            let outcome = if connected is Some {
                DirectUpgradeOutcome::Connected(connected->0)
            } else {
                DirectUpgradeOutcome::Failed
            };
            &&& step.event == Some(EndpointEvent::DirectUpgradeFinished { peer, outcome })
            &&& step.close is None
            &&& after.connections == before.connections
            &&& before.direct_upgrades@.contains_key(peer) ==> after.direct_upgrades@
                == before.direct_upgrades@.insert(peer, Some(outcome))
            &&& !before.direct_upgrades@.contains_key(peer) ==> after.direct_upgrades@
                == before.direct_upgrades@
            &&& before.direct_upgrades@.contains_key(peer) ==> (after.upgrade_settled(peer)
                <==> connected is None || before.connections.of(peer).contains(connected->0))
        },
{
}

/// The reservation is ready once its own listener has an address, and no longer when that
/// listener loses it or closes; other listeners do not matter. A dial that failed is
/// reported and no longer pending, and everything else is of no concern.
pub proof fn law_the_reservation_follows_its_listener(
    before: EndpointDriver,
    after: EndpointDriver,
    id: ListenerId,
    slot: ReservationSlot,
    connection: ConnectionId,
    step: NodeStep,
)
    requires
        before.reservation == Some(slot),
    ensures
        after.applies(before, NodeEvent::NewListenAddr(id), step) ==> {
            &&& slot.listener.0 == id ==> step.event == Some(
                EndpointEvent::ReservationReady(slot.listener),
            ) && after.ready_for(slot.listener)
            &&& slot.listener.0 != id ==> step.event is None && after == before
            &&& step.close is None
        },
        after.applies(before, NodeEvent::ExpiredListenAddr(id), step) || after.applies(
            before,
            NodeEvent::ListenerClosed(id),
            step,
        ) ==> {
            &&& slot.listener.0 == id ==> step.event == Some(
                EndpointEvent::ReservationClosed(slot.listener),
            ) && !after.ready_for(slot.listener)
            &&& slot.listener.0 != id ==> step.event is None && after == before
            &&& step.close is None
        },
        after.applies(before, (NodeEvent::OutgoingConnectionError { connection }), step) ==> {
            &&& step.event == Some(EndpointEvent::DialFailed(connection))
            &&& step.close is None
            &&& after.pending_relay_dials@ == before.pending_relay_dials@.remove(connection)
            &&& after.connections == before.connections
        },
        after.applies(before, NodeEvent::ReservationAccepted, step) || after.applies(
            before,
            NodeEvent::ListenerError,
            step,
        ) || after.applies(before, NodeEvent::Other, step) ==> after == before
            && step.event is None && step.close is None,
{
}

/// A binding holds exactly while the authorized connection is the only one of its peer; it
/// is lost when the peer has none, and invalidated by any other connection.
pub proof fn law_a_binding_rests_on_its_only_connection(
    roster: Seq<ConnectionId>,
    binding: ConnectionBinding,
)
    ensures
        ({
            let verdict = BindingState::over(roster, binding).verdict();
            &&& verdict is Ok <==> roster.len() == 1 && roster[0] == binding.connection
            &&& verdict == Err::<(), EndpointError>(EndpointError::BoundConnectionLost)
                <==> roster.len() == 0
            &&& verdict == Err::<(), EndpointError>(EndpointError::AdditionalBoundConnection) <==> (
            roster.len() > 1 || (roster.len() == 1 && roster[0] != binding.connection))
        }),
{
    if roster.len() == 1 && roster[0] == binding.connection {
        assert(roster =~= seq![binding.connection]);
    }
    if roster == seq![binding.connection] {
        assert(roster.len() == 1 && roster[0] == binding.connection);
    }
}

/// What a check of a binding closes: every connection of the peer when another one
/// invalidated it, and none otherwise.
pub proof fn law_an_invalidated_binding_closes_the_peer(
    enforced: Enforced,
    roster: Seq<ConnectionId>,
    binding: ConnectionBinding,
)
    requires
        enforced.over(roster, binding),
    ensures
        enforced.result is Ok <==> roster.len() == 1 && roster[0] == binding.connection,
        enforced.result == Err::<(), EndpointError>(EndpointError::AdditionalBoundConnection)
            ==> enforced.close@ == roster,
        enforced.result != Err::<(), EndpointError>(EndpointError::AdditionalBoundConnection)
            ==> enforced.close@ == Seq::<ConnectionId>::empty(),
{
    law_a_binding_rests_on_its_only_connection(roster, binding);
}

/// Exactly the coming and going of the bound peer's connections can change what a binding
/// rests on.
pub proof fn law_what_can_change_a_binding(event: EndpointEvent, binding: ConnectionBinding)
    ensures
        affects_binding(event, binding) <==> match event {
            EndpointEvent::Established { peer, .. } => peer == binding.peer,
            EndpointEvent::Closed { peer, .. } => peer == binding.peer,
            EndpointEvent::Ping { .. }
            | EndpointEvent::DirectUpgradeFinished { .. }
            | EndpointEvent::ReservationReady(_)
            | EndpointEvent::ReservationClosed(_)
            | EndpointEvent::DialFailed(_) => false,
        },
{
}

/// A peer is bound exactly when it has one connection, and to that one; the binding then
/// holds. Otherwise the failure is that of a binding which broke the same way.
pub proof fn law_a_peer_is_bound_to_its_only_connection(
    peer: PeerId,
    roster: Seq<ConnectionId>,
    binding: ConnectionBinding,
)
    ensures
        bound_to(peer, roster) == Ok::<ConnectionBinding, EndpointError>(binding) <==> roster == seq![
            binding.connection,
        ] && binding.peer == peer,
        bound_to(peer, roster) is Ok ==> BindingState::over(roster, bound_to(peer, roster)->Ok_0)
            == BindingState::Bound,
        bound_to(peer, roster) is Err ==> BindingState::over(roster, binding).verdict() == Err::<
            (),
            EndpointError,
        >(bound_to(peer, roster)->Err_0),
{
    law_a_binding_rests_on_its_only_connection(roster, binding);
    if roster.len() == 1 {
        assert(roster =~= seq![roster[0]]);
    }
    if roster == seq![binding.connection] {
        assert(roster[0] == binding.connection);
    }
}

/// A check that has nothing to say finds nothing wrong and closes nothing.
pub proof fn law_nothing_to_say_closes_nothing(enforced: Enforced)
    ensures
        enforced.nothing() <==> enforced.result == Ok::<(), EndpointError>(())
            && enforced.close@.len() == 0,
{
    if enforced.close@.len() == 0 {
        assert(enforced.close@ =~= Seq::<ConnectionId>::empty());
    }
}

/// No event changes who the endpoint is.
pub proof fn law_an_endpoint_keeps_its_identity(
    before: EndpointDriver,
    after: EndpointDriver,
    event: NodeEvent,
    step: NodeStep,
)
    requires
        after.applies(before, event, step),
    ensures
        after.local == before.local,
{
}

} // verus!
