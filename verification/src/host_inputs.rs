//! What a host session does with the inputs that reach it between its own
//! steps: events of the endpoint, streams that peers open, signals and
//! deadlines.

use crate::connecting::wait_for_target_quiescence;
use crate::failure::IoFailure;
use crate::host::{interruption, HostError, PendingPair, EXCHANGE_TIMEOUT};
use crate::network::{
    enforce_binding_after_event, BindingState, ConnectionBinding, ConnectionId, EndpointDriver,
    EndpointError, EndpointEvent, PeerId, ReservationLease,
};
use vstd::prelude::*;

verus! {

/// The protocols by which peers open streams to a host.
#[derive(Debug, Clone, Copy, PartialEq, Eq, Structural)]
pub enum InboundProtocol {
    Auth,
    Data,
    Control,
    File,
}

/// What ended a wait of a host session.
#[derive(Debug, Clone, Copy, PartialEq, Eq)]
pub enum SessionWake {
    /// An event, already applied to the endpoint.
    Node(EndpointEvent),
    /// A peer opened a stream; no peer when the registration of the protocol
    /// ended.
    Stream { protocol: InboundProtocol, from: Option<PeerId> },
    /// The session's own work came to its end.
    Done,
    Deadline,
    /// A shutdown signal, or a failure to wait for one.
    Signal(Result<(), IoFailure>),
}

// ---------------------------------------------------------------------------
// Before the authentication
// ---------------------------------------------------------------------------

/// How to go on waiting for a controller's connections to settle.
#[derive(Debug, Clone, Copy, PartialEq, Eq)]
pub enum QuiescencePlan {
    Wait,
    /// Close every connection of the controller, and fail.
    ClosePeer(PeerId),
    Finish(Result<ConnectionBinding, HostError>),
}

/// The controller's direct upgrade has come to rest and one connection is left.
pub open spec fn quiescent(driver: EndpointDriver, controller: PeerId) -> bool {
    driver.upgrade_settled(controller) && driver.connections.of(controller).len() == 1
}

/// How the wait for a controller's connections goes on.
pub open spec fn quiescence_plan(
    driver: EndpointDriver,
    controller: PeerId,
    wake: Option<SessionWake>,
) -> QuiescencePlan {
    match wake {
        Some(SessionWake::Stream { from: None, .. }) => QuiescencePlan::Finish(
            Err(HostError::ProtocolRegistrationEnded),
        ),
        Some(SessionWake::Deadline) => QuiescencePlan::ClosePeer(controller),
        Some(SessionWake::Signal(signal)) => QuiescencePlan::Finish(
            Err(crate::host::interrupted(signal)),
        ),
        _ => if quiescent(driver, controller) {
            QuiescencePlan::Finish(
                Ok(
                    ConnectionBinding {
                        peer: controller,
                        connection: driver.connections.of(controller)[0],
                    },
                ),
            )
        } else {
            QuiescencePlan::Wait
        },
    }
}

/// The wait for a controller's connections, at its start (`wake` is missing) or
/// after a wait. Streams are dropped meanwhile.
pub fn wait_for_controller_quiescence(
    driver: &EndpointDriver,
    controller: PeerId,
    wake: Option<SessionWake>,
) -> (plan: QuiescencePlan)
    requires
        wake is Some ==> !(wake->0 is Done),
    ensures
        plan == quiescence_plan(*driver, controller, wake),
{
    match wake {
        Some(SessionWake::Stream { from: None, .. }) => {
            return QuiescencePlan::Finish(Err(HostError::ProtocolRegistrationEnded));
        },
        Some(SessionWake::Deadline) => {
            return QuiescencePlan::ClosePeer(controller);
        },
        Some(SessionWake::Signal(signal)) => {
            return QuiescencePlan::Finish(Err(interruption(signal)));
        },
        _ => {},
    }
    match wait_for_target_quiescence(driver, controller) {
        Some(binding) => QuiescencePlan::Finish(Ok(binding)),
        None => QuiescencePlan::Wait,
    }
}

/// The failure of a controller whose connections did not settle in time, once
/// they were closed or could not be.
pub fn unsettled_controller(closed: Result<(), EndpointError>) -> (error: HostError)
    ensures
        error == HostError::Endpoint(
            match closed {
                Ok(_) => EndpointError::TargetUpgradeDidNotSettle,
                Err(error) => error,
            },
        ),
{
    match closed {
        Ok(()) => HostError::Endpoint(EndpointError::TargetUpgradeDidNotSettle),
        Err(error) => HostError::Endpoint(error),
    }
}

/// How to go on waiting for a controller.
#[derive(Debug, Clone, Copy, PartialEq, Eq)]
pub enum AuthPlan {
    Wait,
    /// Close the additional connections of the relay first.
    Reconverge,
    /// A controller, or none when the relay lease has to be renewed.
    Finish(Result<Option<PeerId>, HostError>),
}

/// The relay lease can serve a controller.
pub open spec fn lease_usable(driver: EndpointDriver, relay: ReservationLease) -> bool {
    driver.ready_for(relay.listener) && driver.connections.of(relay.relay.binding.peer).contains(
        relay.relay.binding.connection,
    )
}

/// How the wait for a controller goes on.
pub open spec fn auth_plan(
    driver: EndpointDriver,
    relay: ReservationLease,
    wake: Option<SessionWake>,
) -> AuthPlan {
    match wake {
        Some(SessionWake::Stream { from: None, .. }) => AuthPlan::Finish(
            Err(HostError::ProtocolRegistrationEnded),
        ),
        Some(SessionWake::Stream { protocol: InboundProtocol::Auth, from }) => AuthPlan::Finish(
            Ok(from),
        ),
        Some(SessionWake::Signal(signal)) => AuthPlan::Finish(
            Err(crate::host::interrupted(signal)),
        ),
        _ => if !lease_usable(driver, relay) {
            AuthPlan::Finish(Ok(None))
        } else if driver.connections.of(relay.relay.binding.peer).len() > 1 {
            AuthPlan::Reconverge
        } else {
            AuthPlan::Wait
        },
    }
}

/// The wait for a controller, at its start (`wake` is missing) or after a wait.
/// Streams other than those of a controller are dropped meanwhile.
pub fn wait_for_auth(
    driver: &EndpointDriver,
    relay: &ReservationLease,
    wake: Option<SessionWake>,
) -> (plan: AuthPlan)
    requires
        wake is Some ==> !(wake->0 is Done) && !(wake->0 is Deadline),
    ensures
        plan == auth_plan(*driver, *relay, wake),
{
    match wake {
        Some(SessionWake::Stream { from: None, .. }) => {
            return AuthPlan::Finish(Err(HostError::ProtocolRegistrationEnded));
        },
        Some(SessionWake::Stream { protocol: InboundProtocol::Auth, from }) => {
            return AuthPlan::Finish(Ok(from));
        },
        Some(SessionWake::Signal(signal)) => {
            return AuthPlan::Finish(Err(interruption(signal)));
        },
        _ => {},
    }
    if !relay.is_usable(driver) {
        AuthPlan::Finish(Ok(None))
    } else if driver.connection_count(relay.relay().peer()) > 1 {
        AuthPlan::Reconverge
    } else {
        AuthPlan::Wait
    }
}

/// How to go on once the relay's connections were reconverged: a relay that
/// cannot be brought down to one connection is renewed.
pub fn auth_reconverged(result: Result<(), EndpointError>) -> (plan: AuthPlan)
    ensures
        plan == match result {
            Ok(_) => AuthPlan::Wait,
            Err(_) => AuthPlan::Finish(Ok(None)),
        },
{
    match result {
        Ok(()) => AuthPlan::Wait,
        Err(_) => AuthPlan::Finish(Ok(None)),
    }
}

// ---------------------------------------------------------------------------
// During a controller's step
// ---------------------------------------------------------------------------

/// What an input comes to while the session works under a binding.
#[derive(Debug, Clone, Copy, PartialEq, Eq)]
pub enum InputVerdict {
    /// Go on; a stream that came is dropped.
    Wait,
    /// Answer the authentication of another peer that it came too early.
    Refuse(PeerId),
    /// A file stream of the controller.
    OfferFile,
    Finish(Result<(), HostError>),
}

/// An input's verdict, with the connections to close on its account.
pub struct InputPlan {
    pub verdict: InputVerdict,
    pub close: Vec<ConnectionId>,
}

/// The connections that are closed when a binding is checked: all of the peer's
/// when an additional one invalidated it.
pub open spec fn closed_on_check(driver: EndpointDriver, binding: ConnectionBinding) -> Seq<
    ConnectionId,
> {
    if BindingState::over(driver.connections.of(binding.peer), binding) == BindingState::Ambiguous {
        driver.connections.of(binding.peer)
    } else {
        Seq::empty()
    }
}

/// Whether the binding still holds.
pub open spec fn binding_verdict(driver: EndpointDriver, binding: ConnectionBinding) -> Result<
    (),
    EndpointError,
> {
    BindingState::over(driver.connections.of(binding.peer), binding).verdict()
}

/// What a checked binding comes to, where `otherwise` is what comes when it holds.
pub open spec fn checked(
    driver: EndpointDriver,
    binding: ConnectionBinding,
    otherwise: InputVerdict,
) -> InputVerdict {
    match binding_verdict(driver, binding) {
        Ok(_) => otherwise,
        Err(error) => InputVerdict::Finish(Err(HostError::Endpoint(error))),
    }
}

/// What an input comes to while the session works under a binding: a change of
/// the bound peer's connections is judged, another controller is put off, other
/// streams are dropped, and the finished work counts only if the binding holds.
/// A file stream of the bound peer is kept where the session serves files.
pub open spec fn input_verdict(
    driver: EndpointDriver,
    binding: ConnectionBinding,
    files: bool,
    wake: SessionWake,
) -> InputVerdict {
    match wake {
        SessionWake::Node(event) => if crate::network::affects_binding(event, binding) {
            checked(driver, binding, InputVerdict::Wait)
        } else {
            InputVerdict::Wait
        },
        SessionWake::Stream { from: None, .. } => InputVerdict::Finish(
            Err(HostError::ProtocolRegistrationEnded),
        ),
        SessionWake::Stream { protocol, from: Some(peer) } => if protocol == InboundProtocol::Auth {
            if driver.connections.of(peer).len() == 1 {
                InputVerdict::Refuse(peer)
            } else {
                InputVerdict::Wait
            }
        } else if files && protocol == InboundProtocol::File && peer == binding.peer {
            InputVerdict::OfferFile
        } else {
            InputVerdict::Wait
        },
        SessionWake::Done => checked(driver, binding, InputVerdict::Finish(Ok(()))),
        SessionWake::Deadline => InputVerdict::Finish(Err(HostError::Timeout)),
        SessionWake::Signal(signal) => InputVerdict::Finish(
            Err(crate::host::interrupted(signal)),
        ),
    }
}

/// The connections that are closed on account of an input.
pub open spec fn input_closes(
    driver: EndpointDriver,
    binding: ConnectionBinding,
    wake: SessionWake,
) -> Seq<ConnectionId> {
    match wake {
        SessionWake::Node(event) => if crate::network::affects_binding(event, binding) {
            closed_on_check(driver, binding)
        } else {
            Seq::empty()
        },
        SessionWake::Done => closed_on_check(driver, binding),
        _ => Seq::empty(),
    }
}

/// Judges an input that came while the session works under a binding.
pub fn drive_session_inputs(
    driver: &EndpointDriver,
    binding: ConnectionBinding,
    files: bool,
    wake: SessionWake,
) -> (plan: InputPlan)
    ensures
        plan.verdict == input_verdict(*driver, binding, files, wake),
        plan.close@ == input_closes(*driver, binding, wake),
{
    match wake {
        SessionWake::Node(event) => {
            let enforced = enforce_binding_after_event(driver, binding, &event);
            let verdict = match enforced.result {
                Ok(()) => InputVerdict::Wait,
                Err(error) => InputVerdict::Finish(Err(HostError::Endpoint(error))),
            };
            InputPlan { verdict, close: enforced.close }
        },
        SessionWake::Stream { from: None, .. } => {
            let verdict = InputVerdict::Finish(Err(HostError::ProtocolRegistrationEnded));
            InputPlan { verdict, close: Vec::new() }
        },
        SessionWake::Stream { protocol, from: Some(peer) } => {
            let verdict = if protocol == InboundProtocol::Auth {
                if driver.has_unique_connection(peer) {
                    InputVerdict::Refuse(peer)
                } else {
                    InputVerdict::Wait
                }
            } else if files && protocol == InboundProtocol::File && peer == binding.peer() {
                InputVerdict::OfferFile
            } else {
                InputVerdict::Wait
            };
            InputPlan { verdict, close: Vec::new() }
        },
        SessionWake::Done => {
            let enforced = driver.enforce_binding(binding);
            let verdict = match enforced.result {
                Ok(()) => InputVerdict::Finish(Ok(())),
                Err(error) => InputVerdict::Finish(Err(HostError::Endpoint(error))),
            };
            InputPlan { verdict, close: enforced.close }
        },
        SessionWake::Deadline => {
            InputPlan { verdict: InputVerdict::Finish(Err(HostError::Timeout)), close: Vec::new() }
        },
        SessionWake::Signal(signal) => {
            let verdict = InputVerdict::Finish(Err(interruption(signal)));
            InputPlan { verdict, close: Vec::new() }
        },
    }
}

/// What comes of putting off another controller: nothing, unless the session's
/// own binding broke meanwhile. The answer's own failure and a timeout (`None`)
/// do not matter.
pub fn reject_extra_auth(sent: Option<Result<Result<(), HostError>, EndpointError>>) -> (result:
    Result<(), HostError>)
    ensures
        result == match sent {
            Some(Err(error)) => Err::<(), HostError>(HostError::Endpoint(error)),
            _ => Ok(()),
        },
{
    match sent {
        Some(Err(error)) => Err(HostError::Endpoint(error)),
        _ => Ok(()),
    }
}

// ---------------------------------------------------------------------------
// The acknowledgement and the terminal streams
// ---------------------------------------------------------------------------

/// What ended a wait for the terminal streams.
pub enum StreamWake<D, C> {
    /// An input that is no terminal stream.
    Input(SessionWake),
    /// A data stream with the peer that opened it; none when the registration
    /// ended.
    Data(Option<(PeerId, D)>),
    /// A control stream with the peer that opened it; none when the registration
    /// ended.
    Control(Option<(PeerId, C)>),
    /// The acknowledgement was written.
    Acknowledged(Result<(), HostError>),
}

/// How to go on waiting for the terminal streams.
#[derive(Debug, PartialEq, Eq)]
pub enum StreamVerdict<D, C> {
    Wait,
    Refuse(PeerId),
    Finish(Result<(D, C), HostError>),
}

/// The wait for a controller to be told of its authentication and to open both
/// terminal streams. The acknowledgement and the streams have a deadline each.
pub struct StreamWait<D, C> {
    binding: ConnectionBinding,
    acknowledgement_deadline: u64,
    terminal_deadline: Option<u64>,
    pending: PendingPair<D, C>,
}

/// Where the wait for the terminal streams stands.
pub struct StreamWaitView<D, C> {
    pub binding: ConnectionBinding,
    pub acknowledgement_deadline: u64,
    /// Known once the acknowledgement was written.
    pub terminal_deadline: Option<u64>,
    pub pending: (Option<D>, Option<C>),
}

impl<D, C> StreamWaitView<D, C> {
    /// The session has failed.
    pub open spec fn failed(self, error: HostError) -> (Self, StreamVerdict<D, C>) {
        (self, StreamVerdict::Finish(Err(error)))
    }

    /// Hands both streams out when they and the acknowledgement are there.
    pub open spec fn settle(self) -> (Self, StreamVerdict<D, C>) {
        match (self.terminal_deadline, self.pending.0, self.pending.1) {
            (Some(_), Some(data), Some(control)) => (
                StreamWaitView { pending: (None, None), ..self },
                StreamVerdict::Finish(Ok((data, control))),
            ),
            _ => (self, StreamVerdict::Wait),
        }
    }

    /// What follows a wake at `now`. The first stream of each kind that the
    /// controller opens counts.
    pub open spec fn after(
        self,
        driver: EndpointDriver,
        wake: StreamWake<D, C>,
        now: u64,
    ) -> (Self, StreamVerdict<D, C>) {
        match wake {
            StreamWake::Input(input) => match input_verdict(driver, self.binding, false, input) {
                InputVerdict::Finish(Err(error)) => self.failed(error),
                InputVerdict::Refuse(peer) => (self, StreamVerdict::Refuse(peer)),
                _ => self.settle(),
            },
            StreamWake::Data(None) => self.failed(HostError::ProtocolRegistrationEnded),
            StreamWake::Control(None) => self.failed(HostError::ProtocolRegistrationEnded),
            StreamWake::Data(Some((peer, data))) => if peer == self.binding.peer
                && self.pending.0 is None {
                StreamWaitView { pending: (Some(data), self.pending.1), ..self }.settle()
            } else {
                self.settle()
            },
            StreamWake::Control(Some((peer, control))) => if peer == self.binding.peer
                && self.pending.1 is None {
                StreamWaitView { pending: (self.pending.0, Some(control)), ..self }.settle()
            } else {
                self.settle()
            },
            StreamWake::Acknowledged(Err(error)) => self.failed(error),
            StreamWake::Acknowledged(Ok(_)) => StreamWaitView {
                terminal_deadline: Some((now + EXCHANGE_TIMEOUT) as u64),
                ..self
            }.settle(),
        }
    }
}

impl<D, C> View for StreamWait<D, C> {
    type V = StreamWaitView<D, C>;

    closed spec fn view(&self) -> StreamWaitView<D, C> {
        StreamWaitView {
            binding: self.binding,
            acknowledgement_deadline: self.acknowledgement_deadline,
            terminal_deadline: self.terminal_deadline,
            pending: self.pending@,
        }
    }
}

impl<D, C> StreamWait<D, C> {
    /// Begins the wait for the bound controller.
    pub fn new(binding: ConnectionBinding, now: u64) -> (wait: Self)
        requires
            now + EXCHANGE_TIMEOUT <= u64::MAX,
        ensures
            wait@ == (StreamWaitView {
                binding,
                acknowledgement_deadline: (now + EXCHANGE_TIMEOUT) as u64,
                terminal_deadline: None,
                pending: (None::<D>, None::<C>),
            }),
    {
        StreamWait {
            binding,
            acknowledgement_deadline: now + EXCHANGE_TIMEOUT,
            terminal_deadline: None,
            pending: PendingPair::new(),
        }
    }

    /// When the wait ends: by the deadline of the streams once the acknowledgement
    /// was written, by its own before.
    pub fn deadline(&self) -> (deadline: u64)
        ensures
            deadline == match self@.terminal_deadline {
                Some(deadline) => deadline,
                None => self@.acknowledgement_deadline,
            },
    {
        match self.terminal_deadline {
            Some(deadline) => deadline,
            None => self.acknowledgement_deadline,
        }
    }

    /// Whether the acknowledgement is still being written.
    pub fn acknowledging(&self) -> (acknowledging: bool)
        ensures
            acknowledging == (self@.terminal_deadline is None),
    {
        self.terminal_deadline.is_none()
    }

    fn settle(&mut self) -> (verdict: StreamVerdict<D, C>)
        ensures
            (final(self)@, verdict) == old(self)@.settle(),
    {
        if self.terminal_deadline.is_some() {
            match self.pending.take_complete() {
                Some(streams) => StreamVerdict::Finish(Ok(streams)),
                None => StreamVerdict::Wait,
            }
        } else {
            StreamVerdict::Wait
        }
    }

    /// Takes a wake into account. The connections to close come with the verdict.
    pub fn observe(&mut self, driver: &EndpointDriver, wake: StreamWake<D, C>, now: u64) -> (plan: (
        StreamVerdict<D, C>,
        Vec<ConnectionId>,
    ))
        requires
            now + EXCHANGE_TIMEOUT <= u64::MAX,
            wake is Acknowledged ==> old(self)@.terminal_deadline is None,
            wake is Input ==> !(wake->Input_0 is Done),
        ensures
            (final(self)@, plan.0) == old(self)@.after(*driver, wake, now),
            plan.1@ == match wake {
                StreamWake::Input(input) => input_closes(*driver, old(self)@.binding, input),
                _ => Seq::empty(),
            },
    {
        match wake {
            StreamWake::Input(input) => {
                let plan = drive_session_inputs(driver, self.binding, false, input);
                let verdict = match plan.verdict {
                    InputVerdict::Finish(Err(error)) => StreamVerdict::Finish(Err(error)),
                    InputVerdict::Refuse(peer) => StreamVerdict::Refuse(peer),
                    _ => self.settle(),
                };
                (verdict, plan.close)
            },
            StreamWake::Data(None) => (
                StreamVerdict::Finish(Err(HostError::ProtocolRegistrationEnded)),
                Vec::new(),
            ),
            StreamWake::Control(None) => (
                StreamVerdict::Finish(Err(HostError::ProtocolRegistrationEnded)),
                Vec::new(),
            ),
            StreamWake::Data(Some((peer, data))) => {
                if peer == self.binding.peer() && self.pending.needs_data() {
                    self.pending.insert_data(data);
                }
                (self.settle(), Vec::new())
            },
            StreamWake::Control(Some((peer, control))) => {
                if peer == self.binding.peer() && self.pending.needs_control() {
                    self.pending.insert_control(control);
                }
                (self.settle(), Vec::new())
            },
            StreamWake::Acknowledged(Err(error)) => (
                StreamVerdict::Finish(Err(error)),
                Vec::new(),
            ),
            StreamWake::Acknowledged(Ok(())) => {
                self.terminal_deadline = Some(now + EXCHANGE_TIMEOUT);
                (self.settle(), Vec::new())
            },
        }
    }
}

// ---------------------------------------------------------------------------
// Laws
// ---------------------------------------------------------------------------

/// Work done under a binding that an additional connection invalidated is not
/// accepted: every connection of the peer is closed, and the session is told.
pub proof fn law_an_extra_connection_voids_the_work(
    driver: EndpointDriver,
    binding: ConnectionBinding,
    files: bool,
)
    requires
        driver.connections.of(binding.peer).len() > 1,
    ensures
        input_verdict(driver, binding, files, SessionWake::Done) == InputVerdict::Finish(
            Err(HostError::Endpoint(EndpointError::AdditionalBoundConnection)),
        ),
        input_closes(driver, binding, SessionWake::Done) == driver.connections.of(binding.peer),
{
    assert(seq![binding.connection].len() == 1);
}

/// No stream of any peer ends the work of a session.
pub proof fn law_streams_do_not_disturb_a_session(
    driver: EndpointDriver,
    binding: ConnectionBinding,
    files: bool,
    protocol: InboundProtocol,
    peer: PeerId,
)
    ensures
        !(input_verdict(
            driver,
            binding,
            files,
            (SessionWake::Stream { protocol, from: Some(peer) }),
        ) is Finish),
{
}

/// Only the bound peer's file streams are served, and only where the session
/// serves files.
pub proof fn law_only_the_controller_is_served_files(
    driver: EndpointDriver,
    binding: ConnectionBinding,
    files: bool,
    wake: SessionWake,
)
    ensures
        input_verdict(driver, binding, files, wake) is OfferFile <==> files && wake
            == (SessionWake::Stream { protocol: InboundProtocol::File, from: Some(binding.peer) }),
{
}

/// The streams that a wait hands out are those of the controller, and are handed
/// out only once the acknowledgement was written.
pub proof fn law_streams_wait_for_the_acknowledgement<D, C>(
    wait: StreamWaitView<D, C>,
    driver: EndpointDriver,
    wake: StreamWake<D, C>,
    now: u64,
)
    ensures
        ({
            let (next, verdict) = wait.after(driver, wake, now);
            &&& verdict is Finish && verdict->Finish_0 is Ok ==> next.terminal_deadline is Some && (
            wait.terminal_deadline is Some || wake is Acknowledged)
            &&& next.binding == wait.binding
            &&& next.pending.0 is Some && wait.pending.0 is None ==> match wake {
                StreamWake::Data(Some((peer, _))) => peer == wait.binding.peer,
                _ => false,
            }
            &&& next.pending.1 is Some && wait.pending.1 is None ==> match wake {
                StreamWake::Control(Some((peer, _))) => peer == wait.binding.peer,
                _ => false,
            }
        }),
{
}

/// A relay lease survives other connections of its relay, coming and going, and
/// ends with its own connection or its reservation.
pub proof fn law_a_lease_rests_on_its_own_connection(
    before: EndpointDriver,
    after: EndpointDriver,
    relay: ReservationLease,
)
    requires
        after.reservation == before.reservation,
        before.connections.of(relay.relay.binding.peer).contains(relay.relay.binding.connection)
            <==> after.connections.of(relay.relay.binding.peer).contains(
            relay.relay.binding.connection,
        ),
    ensures
        lease_usable(after, relay) == lease_usable(before, relay),
        !before.connections.of(relay.relay.binding.peer).contains(relay.relay.binding.connection)
            ==> !lease_usable(before, relay),
        !before.ready_for(relay.listener) ==> !lease_usable(before, relay),
{
}

/// A change of the bound peer's connections is judged at once: the work goes on while
/// the authorized connection is the only one; it ends when none is left; and it ends,
/// with every connection closed, when another one is there.
pub proof fn law_a_change_of_the_binding_is_judged(
    driver: EndpointDriver,
    binding: ConnectionBinding,
    files: bool,
    connection: ConnectionId,
    relayed: bool,
)
    ensures
        ({
            let roster = driver.connections.of(binding.peer);
            let came = SessionWake::Node(
                EndpointEvent::Established { peer: binding.peer, connection, relayed },
            );
            let went = SessionWake::Node(
                EndpointEvent::Closed { peer: binding.peer, connection },
            );
            forall|wake: SessionWake|
                wake == came || wake == went ==> {
                    let verdict = #[trigger] input_verdict(driver, binding, files, wake);
                    let close = input_closes(driver, binding, wake);
                    &&& roster == seq![binding.connection] ==> verdict == InputVerdict::Wait
                        && close == Seq::<ConnectionId>::empty()
                    &&& roster.len() == 0 ==> verdict == InputVerdict::Finish(
                        Err(HostError::Endpoint(EndpointError::BoundConnectionLost)),
                    ) && close == Seq::<ConnectionId>::empty()
                    &&& roster.len() > 0 && roster != seq![binding.connection] ==> verdict
                        == InputVerdict::Finish(
                        Err(HostError::Endpoint(EndpointError::AdditionalBoundConnection)),
                    ) && close == roster
                }
        }),
{
    assert(seq![binding.connection].len() == 1);
}

/// What happens to other peers, or to anything but connections, does not concern the
/// work of a session.
pub proof fn law_other_events_do_not_concern_a_session(
    driver: EndpointDriver,
    binding: ConnectionBinding,
    files: bool,
    event: EndpointEvent,
)
    requires
        match event {
            EndpointEvent::Established { peer, .. } => peer != binding.peer,
            EndpointEvent::Closed { peer, .. } => peer != binding.peer,
            _ => true,
        },
    ensures
        input_verdict(driver, binding, files, SessionWake::Node(event)) == InputVerdict::Wait,
        input_closes(driver, binding, SessionWake::Node(event)) == Seq::<ConnectionId>::empty(),
{
}

/// Work that is done counts exactly while the authorized connection is the only one of
/// its peer.
pub proof fn law_work_counts_while_the_binding_holds(
    driver: EndpointDriver,
    binding: ConnectionBinding,
    files: bool,
)
    ensures
        input_verdict(driver, binding, files, SessionWake::Done) == InputVerdict::Finish(Ok(()))
            <==> driver.connections.of(binding.peer) == seq![binding.connection],
        driver.connections.of(binding.peer).len() == 0 ==> input_verdict(
            driver,
            binding,
            files,
            SessionWake::Done,
        ) == InputVerdict::Finish(
            Err(HostError::Endpoint(EndpointError::BoundConnectionLost)),
        ),
        driver.connections.of(binding.peer).len() <= 1 && driver.connections.of(binding.peer)
            != seq![binding.connection] && driver.connections.of(binding.peer).len() > 0
            ==> input_closes(driver, binding, SessionWake::Done) == driver.connections.of(
            binding.peer,
        ),
        driver.connections.of(binding.peer) == seq![binding.connection] || driver.connections.of(
            binding.peer,
        ).len() == 0 ==> input_closes(driver, binding, SessionWake::Done) == Seq::<
            ConnectionId,
        >::empty(),
{
    assert(seq![binding.connection].len() == 1);
}

/// Another controller is put off where it can be answered on its only connection; every
/// other stream is dropped, but for the file streams of the bound peer. The end of a
/// registration, a deadline and a signal end the work, each with its own failure.
pub proof fn law_what_ends_the_work_of_a_session(
    driver: EndpointDriver,
    binding: ConnectionBinding,
    files: bool,
    protocol: InboundProtocol,
    peer: PeerId,
    failure: IoFailure,
)
    ensures
        ({
            let stream = SessionWake::Stream { protocol, from: Some(peer) };
            let verdict = input_verdict(driver, binding, files, stream);
            &&& verdict == InputVerdict::Refuse(peer) <==> protocol == InboundProtocol::Auth
                && driver.connections.of(peer).len() == 1
            &&& verdict == InputVerdict::OfferFile <==> files && protocol == InboundProtocol::File
                && peer == binding.peer
            &&& verdict is Refuse ==> verdict == InputVerdict::Refuse(peer)
            &&& input_closes(driver, binding, stream) == Seq::<ConnectionId>::empty()
        }),
        input_verdict(driver, binding, files, (SessionWake::Stream { protocol, from: None }))
            == InputVerdict::Finish(Err(HostError::ProtocolRegistrationEnded)),
        input_verdict(driver, binding, files, SessionWake::Deadline) == InputVerdict::Finish(
            Err(HostError::Timeout),
        ),
        input_verdict(driver, binding, files, SessionWake::Signal(Ok(()))) == InputVerdict::Finish(
            Err(HostError::Interrupted),
        ),
        input_verdict(driver, binding, files, SessionWake::Signal(Err(failure)))
            == InputVerdict::Finish(Err(HostError::Io(failure))),
        input_closes(driver, binding, SessionWake::Deadline) == Seq::<ConnectionId>::empty(),
        input_closes(driver, binding, SessionWake::Signal(Ok(()))) == Seq::<ConnectionId>::empty(),
{
}

/// The first data and the first control stream of the controller are kept, and both are
/// handed out as soon as they and the acknowledgement are there, in whichever order they
/// come.
pub proof fn law_both_streams_are_handed_out<D, C>(
    wait: StreamWaitView<D, C>,
    driver: EndpointDriver,
    data: D,
    control: C,
    deadline: u64,
    now: u64,
)
    requires
        now + EXCHANGE_TIMEOUT <= u64::MAX,
    ensures
        ({
            let peer = wait.binding.peer;
            let first = StreamWake::<D, C>::Data(Some((peer, data)));
            let second = StreamWake::<D, C>::Control(Some((peer, control)));
            let acknowledged = StreamWake::<D, C>::Acknowledged(Ok(()));
            let both = StreamVerdict::<D, C>::Finish(Ok((data, control)));
            &&& wait.terminal_deadline == Some(deadline) && wait.pending == (
                None::<D>,
                Some(control),
            ) ==> wait.after(driver, first, now).1 == both
            &&& wait.terminal_deadline == Some(deadline) && wait.pending == (
                Some(data),
                None::<C>,
            ) ==> wait.after(driver, second, now).1 == both
            &&& wait.terminal_deadline is None && wait.pending == (Some(data), Some(control))
                ==> wait.after(driver, acknowledged, now).1 == both
            &&& wait.pending == (None::<D>, None::<C>) ==> {
                &&& wait.after(driver, first, now).0.pending == (Some(data), None::<C>)
                &&& wait.after(driver, first, now).1 == StreamVerdict::<D, C>::Wait
                &&& wait.after(driver, second, now).0.pending == (None::<D>, Some(control))
                &&& wait.after(driver, second, now).1 == StreamVerdict::<D, C>::Wait
            }
            &&& wait.terminal_deadline is None && wait.pending == (None::<D>, Some(control)) ==> {
                &&& wait.after(driver, first, now).0.pending == (Some(data), Some(control))
                &&& wait.after(driver, first, now).1 == StreamVerdict::<D, C>::Wait
            }
            &&& wait.terminal_deadline is None && wait.pending == (Some(data), None::<C>) ==> {
                &&& wait.after(driver, second, now).0.pending == (Some(data), Some(control))
                &&& wait.after(driver, second, now).1 == StreamVerdict::<D, C>::Wait
            }
        }),
{
}

/// A stream of another peer, or a second one of its kind, changes nothing, while one of
/// the two is missing; the acknowledgement gives the streams a time of their own.
pub proof fn law_further_streams_change_nothing<D, C>(
    wait: StreamWaitView<D, C>,
    driver: EndpointDriver,
    peer: PeerId,
    data: D,
    control: C,
    now: u64,
)
    requires
        now + EXCHANGE_TIMEOUT <= u64::MAX,
        wait.pending.0 is None || wait.pending.1 is None,
    ensures
        peer != wait.binding.peer || wait.pending.0 is Some ==> wait.after(
            driver,
            StreamWake::Data(Some((peer, data))),
            now,
        ) == (wait, StreamVerdict::<D, C>::Wait),
        peer != wait.binding.peer || wait.pending.1 is Some ==> wait.after(
            driver,
            StreamWake::Control(Some((peer, control))),
            now,
        ) == (wait, StreamVerdict::<D, C>::Wait),
        ({
            let (next, verdict) = wait.after(driver, StreamWake::Acknowledged(Ok(())), now);
            &&& verdict == StreamVerdict::<D, C>::Wait
            &&& next.terminal_deadline is Some
            &&& next.terminal_deadline->0 == now + EXCHANGE_TIMEOUT
            &&& next.pending == wait.pending
            &&& next.acknowledgement_deadline == wait.acknowledgement_deadline
        }),
{
}

/// The wait for the streams fails when a registration ends, when the acknowledgement
/// cannot be written, and when an input ends the session; it passes on what an input asks
/// for otherwise.
pub proof fn law_the_wait_for_streams_fails_with_its_reason<D, C>(
    wait: StreamWaitView<D, C>,
    driver: EndpointDriver,
    input: SessionWake,
    error: HostError,
    peer: PeerId,
    now: u64,
)
    ensures
        ({
            let failed = StreamVerdict::<D, C>::Finish(Err(error));
            let ended = StreamVerdict::<D, C>::Finish(Err(HostError::ProtocolRegistrationEnded));
            &&& wait.after(driver, StreamWake::Data(None), now).1 == ended
            &&& wait.after(driver, StreamWake::Control(None), now).1 == ended
            &&& wait.after(driver, StreamWake::Acknowledged(Err(error)), now).1 == failed
            &&& input_verdict(driver, wait.binding, false, input) == InputVerdict::Finish(
                Err(error),
            ) ==> wait.after(driver, StreamWake::Input(input), now).1 == failed
            &&& input_verdict(driver, wait.binding, false, input) == InputVerdict::Refuse(peer)
                ==> wait.after(driver, StreamWake::Input(input), now) == (
                wait,
                StreamVerdict::<D, C>::Refuse(peer),
            )
            &&& input_verdict(driver, wait.binding, false, input) == InputVerdict::Wait && (
            wait.terminal_deadline is None || wait.pending.0 is None || wait.pending.1 is None)
                ==> wait.after(driver, StreamWake::Input(input), now) == (
                wait,
                StreamVerdict::<D, C>::Wait,
            )
        }),
{
}

/// A controller has settled exactly when it has one connection left and its direct
/// upgrade failed or made one that exists; a lease serves exactly while its reservation
/// is ready and its connection exists.
pub proof fn law_when_a_controller_or_a_lease_is_ready(
    driver: EndpointDriver,
    controller: PeerId,
    connection: ConnectionId,
    relay: ReservationLease,
)
    ensures
        driver.direct_upgrades@.contains_key(controller) && driver.direct_upgrades@[controller]
            == Some(crate::network::DirectUpgradeOutcome::Failed) ==> (quiescent(driver, controller)
            <==> driver.connections.of(controller).len() == 1),
        driver.direct_upgrades@.contains_key(controller) && driver.direct_upgrades@[controller]
            == Some(crate::network::DirectUpgradeOutcome::Connected(connection)) ==> (quiescent(driver, controller)
            <==> driver.connections.of(controller) == seq![connection]),
        !driver.direct_upgrades@.contains_key(controller)
            || driver.direct_upgrades@[controller] is None ==> !quiescent(driver, controller),
        lease_usable(driver, relay) <==> driver.reservation is Some
            && driver.reservation->0.listener == relay.listener && driver.reservation->0.ready
            && driver.connections.of(relay.relay.binding.peer).contains(
            relay.relay.binding.connection,
        ),
{
    let roster = driver.connections.of(controller);
    if roster.len() == 1 && roster.contains(connection) {
        assert(roster =~= seq![connection]);
    }
    if roster == seq![connection] {
        assert(roster[0] == connection);
        assert(roster.len() == 1);
    }
}

/// A controller is bound to its connection as soon as it has settled, at the start of the
/// wait and after every event or stream; it is waited for until then, closed when time
/// runs out, and let go on a signal or when a registration ends.
pub proof fn law_a_settled_controller_is_bound(
    driver: EndpointDriver,
    controller: PeerId,
    event: EndpointEvent,
    protocol: InboundProtocol,
    peer: PeerId,
)
    ensures
        ({
            let bound = QuiescencePlan::Finish(
                Ok(
                    ConnectionBinding {
                        peer: controller,
                        connection: driver.connections.of(controller)[0],
                    },
                ),
            );
            let stream = SessionWake::Stream { protocol, from: Some(peer) };
            forall|wake: Option<SessionWake>|
                wake is None || wake == Some(SessionWake::Node(event)) || wake == Some(stream) ==> {
                    &&& quiescent(driver, controller) ==> #[trigger] quiescence_plan(
                        driver,
                        controller,
                        wake,
                    ) == bound
                    &&& !quiescent(driver, controller) ==> quiescence_plan(driver, controller, wake)
                        == QuiescencePlan::Wait
                }
        }),
        quiescence_plan(driver, controller, Some(SessionWake::Deadline))
            == QuiescencePlan::ClosePeer(controller),
        quiescence_plan(driver, controller, Some(SessionWake::Signal(Ok(()))))
            == QuiescencePlan::Finish(Err(HostError::Interrupted)),
        quiescence_plan(
            driver,
            controller,
            Some((SessionWake::Stream { protocol, from: None })),
        ) == QuiescencePlan::Finish(Err(HostError::ProtocolRegistrationEnded)),
{
}

/// A peer that asks to authenticate is the controller, whatever the lease has come to.
/// Otherwise the wait goes on while the lease is usable, reconverges a relay with more
/// than one connection, and ends without a controller when the lease is not usable.
pub proof fn law_who_asks_to_authenticate_is_the_controller(
    driver: EndpointDriver,
    relay: ReservationLease,
    event: EndpointEvent,
    protocol: InboundProtocol,
    peer: PeerId,
)
    ensures
        auth_plan(
            driver,
            relay,
            Some((SessionWake::Stream { protocol: InboundProtocol::Auth, from: Some(peer) })),
        ) == AuthPlan::Finish(Ok(Some(peer))),
        auth_plan(driver, relay, Some((SessionWake::Stream { protocol, from: None })))
            == AuthPlan::Finish(Err(HostError::ProtocolRegistrationEnded)),
        auth_plan(driver, relay, Some(SessionWake::Signal(Ok(())))) == AuthPlan::Finish(
            Err(HostError::Interrupted),
        ),
        ({
            let stream = SessionWake::Stream { protocol, from: Some(peer) };
            let several = driver.connections.of(relay.relay.binding.peer).len() > 1;
            forall|wake: Option<SessionWake>|
                wake is None || wake == Some(SessionWake::Node(event)) || (wake == Some(stream)
                    && protocol != InboundProtocol::Auth) ==> {
                    let plan = #[trigger] auth_plan(driver, relay, wake);
                    &&& plan == AuthPlan::Finish(Ok(None)) <==> !lease_usable(driver, relay)
                    &&& plan == AuthPlan::Reconverge <==> lease_usable(driver, relay) && several
                    &&& plan == AuthPlan::Wait <==> lease_usable(driver, relay) && !several
                }
        }),
{
}

} // verus!
