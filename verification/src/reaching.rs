//! The whole way to the relay and to the target: what is closed before and after a
//! choice, and when the way has come to its end.
//!
//! Each way is a machine. It says which connections to close and what to do next,
//! out of the roster of the peer and of how a wait ended.

use crate::connecting::{
    close_peer_after, close_peer_and_wait, configured_relay_result, converge_after,
    converge_to_binding, convergence_deadline, drain_after, drain_relay_state, relay_deadlines,
    wait_for_target_quiescence, Convergence, DirectUpgradePolicy, SelectionOrder, SelectionOutcome,
    TargetAttempt, TargetPlan, Waited,
};
use crate::network::{
    ConnectionBinding, ConnectionId, DirectUpgradeOutcome, EndpointDriver, EndpointError,
    EndpointEvent, PeerId, RelayConnection, CONNECT_TIMEOUT, CONVERGENCE_TIMEOUT,
    RELAY_DRAIN_WINDOW, TARGET_SETTLE_TIMEOUT,
};
use vstd::prelude::*;

verus! {

// ---------------------------------------------------------------------------
// The target
// ---------------------------------------------------------------------------

/// Where the way to a target has got to.
#[derive(Debug, Clone, Copy, PartialEq, Eq, Structural)]
pub enum TargetPhase {
    /// Candidates are collected.
    Collecting,
    /// The way has failed; the target's connections are being closed.
    Closing { error: EndpointError, deadline: u64 },
    /// One of the candidates is to be chosen.
    Choosing,
    /// The other connections are being closed.
    Converging { binding: ConnectionBinding, deadline: u64 },
    /// The way has come to its end.
    Finished,
}

/// What the way to a target wants done.
#[derive(Debug, Clone, Copy, PartialEq, Eq)]
pub enum TargetAction {
    /// Wait for an event until the moment.
    Wait(u64),
    /// Choose among the candidates.
    Choose,
    Finish(Result<ConnectionBinding, EndpointError>),
}

/// The connections to close, and what to do then.
#[derive(Debug, PartialEq, Eq)]
pub struct TargetStep {
    pub close: Vec<ConnectionId>,
    pub action: TargetAction,
}

/// What the way to a target is told, with the target's roster at that moment.
pub enum TargetInput {
    /// How a wait ended; whether the event gained a candidate, and whether the
    /// connection that the direct upgrade made is a candidate now.
    Waited {
        waited: Waited,
        candidate: bool,
        upgrade_selected: bool,
        now: u64,
        roster: Seq<ConnectionId>,
    },
    /// The winner and the losers of the selection, if it had a candidate.
    Chosen {
        selection: Option<(ConnectionId, Seq<ConnectionId>)>,
        now: u64,
        roster: Seq<ConnectionId>,
    },
}

/// What an input comes to.
pub struct TargetOutcome {
    pub next: TargetView,
    pub close: Seq<ConnectionId>,
    pub action: TargetAction,
}

/// The input is one that can come in the phase.
pub open spec fn target_awaits(phase: TargetPhase, input: TargetInput) -> bool {
    match phase {
        TargetPhase::Choosing => input is Chosen,
        TargetPhase::Finished => false,
        _ => input is Waited,
    }
}

/// The way to a target: its attempt, and where it has got to.
pub struct TargetView {
    pub attempt: TargetAttempt,
    pub phase: TargetPhase,
}

impl TargetView {
    /// The way at its beginning.
    pub open spec fn initial(target: PeerId, now: u64, policy: DirectUpgradePolicy) -> TargetView {
        TargetView {
            attempt: TargetAttempt::initial(target, (now + TARGET_SETTLE_TIMEOUT) as u64, policy),
            phase: TargetPhase::Collecting,
        }
    }

    /// The end of the way.
    pub open spec fn finish(self, result: Result<ConnectionBinding, EndpointError>)
        -> TargetOutcome {
        TargetOutcome {
            next: TargetView { phase: TargetPhase::Finished, ..self },
            close: Seq::empty(),
            action: TargetAction::Finish(result),
        }
    }

    /// A failure is reported once no connection of the target is left.
    pub open spec fn closing(
        self,
        error: EndpointError,
        deadline: u64,
        roster: Seq<ConnectionId>,
    ) -> TargetOutcome {
        if roster.len() == 0 {
            self.finish(Err(error))
        } else {
            TargetOutcome {
                next: TargetView { phase: TargetPhase::Closing { error, deadline }, ..self },
                close: roster,
                action: TargetAction::Wait(deadline),
            }
        }
    }

    /// The chosen connection is reported once it is the only one.
    pub open spec fn converging(
        self,
        binding: ConnectionBinding,
        deadline: u64,
        roster: Seq<ConnectionId>,
    ) -> TargetOutcome {
        match crate::connecting::converge_state(roster, binding) {
            Convergence::Settled => self.finish(Ok(binding)),
            Convergence::Failed(error) => self.finish(Err(error)),
            Convergence::Pending => TargetOutcome {
                next: TargetView { phase: TargetPhase::Converging { binding, deadline }, ..self },
                close: roster.filter(|connection: ConnectionId| connection != binding.connection),
                action: TargetAction::Wait(deadline),
            },
        }
    }

    /// What a plan of the attempt comes to. A choice that is refused closes the
    /// target first, as giving up does.
    pub open spec fn planned(self, plan: TargetPlan, now: u64, roster: Seq<ConnectionId>)
        -> TargetOutcome {
        let deadline = (now + CONVERGENCE_TIMEOUT) as u64;
        match plan {
            TargetPlan::Wait => TargetOutcome {
                next: TargetView { phase: TargetPhase::Collecting, ..self },
                close: Seq::empty(),
                action: TargetAction::Wait(self.attempt.wait_deadline()),
            },
            TargetPlan::GiveUp(error) => self.closing(error, deadline, roster),
            TargetPlan::Choose => match self.attempt.refused() {
                Some(error) => self.closing(error, deadline, roster),
                None => TargetOutcome {
                    next: TargetView { phase: TargetPhase::Choosing, ..self },
                    close: Seq::empty(),
                    action: TargetAction::Choose,
                },
            },
        }
    }

    /// What follows an input.
    pub open spec fn after(self, input: TargetInput) -> TargetOutcome {
        match (self.phase, input) {
            (
                TargetPhase::Collecting,
                TargetInput::Waited { waited, candidate, upgrade_selected, now, roster },
            ) => match waited {
                Waited::Event(event) => {
                    let attempt = self.attempt.observed(event, candidate, now);
                    TargetView { attempt, ..self }.planned(
                        attempt.settle(upgrade_selected),
                        now,
                        roster,
                    )
                },
                Waited::Expired => if self.attempt.window_open() {
                    let attempt = TargetAttempt { selection_elapsed: true, ..self.attempt };
                    TargetView { attempt, ..self }.planned(
                        attempt.settle(upgrade_selected),
                        now,
                        roster,
                    )
                } else {
                    self.planned(TargetPlan::GiveUp(self.attempt.unsettled()), now, roster)
                },
            },
            (
                TargetPhase::Closing { error, deadline },
                TargetInput::Waited { waited, roster, .. },
            ) => if waited == Waited::Expired {
                self.finish(Err(EndpointError::ConnectionCloseDidNotConverge))
            } else {
                self.closing(error, deadline, roster)
            },
            (
                TargetPhase::Converging { binding, deadline },
                TargetInput::Waited { waited, roster, .. },
            ) => if waited == Waited::Expired {
                self.finish(Err(EndpointError::RelayDidNotConverge))
            } else {
                self.converging(binding, deadline, roster)
            },
            (TargetPhase::Choosing, TargetInput::Chosen { selection, now, roster }) => {
                match selection {
                    None => self.finish(Err(EndpointError::RelayUnavailable)),
                    Some((winner, losers)) => {
                        let binding = ConnectionBinding {
                            peer: self.attempt.target,
                            connection: winner,
                        };
                        let deadline = crate::connecting::earlier(
                            (now + CONVERGENCE_TIMEOUT) as u64,
                            self.attempt.connect_deadline,
                        );
                        let round = self.converging(binding, deadline, roster);
                        TargetOutcome { close: losers + round.close, ..round }
                    },
                }
            },
            _ => TargetOutcome {
                next: self,
                close: Seq::empty(),
                action: TargetAction::Wait(self.attempt.connect_deadline),
            },
        }
    }

    /// What an event means for the selection: nothing once candidates are no longer
    /// collected.
    pub open spec fn ordered(self, event: EndpointEvent) -> SelectionOrder {
        if self.phase == TargetPhase::Collecting {
            self.attempt.ordered(event)
        } else {
            SelectionOrder::Ignore
        }
    }

    /// What every reachable way satisfies.
    pub open spec fn valid(self) -> bool {
        let upgraded = self.attempt.policy == DirectUpgradePolicy::Enabled ==> (
        self.attempt.outcome matches Some(DirectUpgradeOutcome::Connected(_)));
        &&& self.attempt.valid()
        &&& match self.phase {
            TargetPhase::Closing { error, .. } => {
                ||| error == EndpointError::TargetUpgradeDidNotSettle
                ||| error == EndpointError::RelayUnavailable
                ||| error == EndpointError::DirectUpgradeFailed && self.attempt.policy
                    == DirectUpgradePolicy::Enabled
            },
            TargetPhase::Choosing => upgraded,
            TargetPhase::Converging { binding, .. } => upgraded && binding.peer
                == self.attempt.target,
            _ => true,
        }
    }
}

/// The way to a target, from the dial to the one connection that is kept.
pub struct TargetConnecting {
    attempt: TargetAttempt,
    phase: TargetPhase,
}

impl View for TargetConnecting {
    type V = TargetView;

    closed spec fn view(&self) -> TargetView {
        TargetView { attempt: self.attempt, phase: self.phase }
    }
}

impl TargetConnecting {
    #[verifier::type_invariant]
    spec fn wf(self) -> bool {
        self@.valid()
    }

    /// Begins the way after the target was dialed.
    pub fn new(target: PeerId, now: u64, policy: DirectUpgradePolicy) -> (begun: (Self, TargetStep))
        requires
            now + TARGET_SETTLE_TIMEOUT <= u64::MAX,
        ensures
            begun.0@ == TargetView::initial(target, now, policy),
            begun.0@.valid(),
            begun.1.close@ == Seq::<ConnectionId>::empty(),
            begun.1.action == TargetAction::Wait((now + TARGET_SETTLE_TIMEOUT) as u64),
    {
        let deadline: u64 = now + TARGET_SETTLE_TIMEOUT;
        let attempt = TargetAttempt::new(target, deadline, policy);
        (
            TargetConnecting { attempt, phase: TargetPhase::Collecting },
            TargetStep { close: Vec::new(), action: TargetAction::Wait(deadline) },
        )
    }

    /// Where the way has got to.
    pub fn phase(&self) -> (phase: TargetPhase)
        ensures
            phase == self@.phase,
    {
        self.phase
    }

    /// What to do with the selection on an event: nothing once candidates are no
    /// longer collected.
    pub fn order(&self, event: EndpointEvent) -> (order: SelectionOrder)
        ensures
            order == self@.ordered(event),
    {
        match self.phase {
            TargetPhase::Collecting => self.attempt.order(event),
            _ => SelectionOrder::Ignore,
        }
    }

    /// The connection that the direct upgrade made, as far as it is known once an
    /// event, if there is one, has been taken into account.
    pub fn upgrade(&self, event: Option<EndpointEvent>) -> (connection: Option<ConnectionId>)
        ensures
            connection == match self@.attempt.outcome_with(event) {
                Some(DirectUpgradeOutcome::Connected(connection)) => Some(connection),
                _ => None,
            },
    {
        self.attempt.upgrade(event)
    }

    fn closing(&mut self, driver: &EndpointDriver, error: EndpointError, deadline: u64) -> (step:
        TargetStep)
        requires
            (TargetView { phase: TargetPhase::Closing { error, deadline }, ..old(self)@ }).valid(),
        ensures
            ({
                let roster = driver.connections.of(old(self)@.attempt.target);
                let outcome = old(self)@.closing(error, deadline, roster);
                &&& final(self)@ == outcome.next
                &&& step.close@ == outcome.close
                &&& step.action == outcome.action
            }),
            final(self)@.valid(),
    {
        let round = close_peer_and_wait(driver, self.attempt.target);
        match round.state {
            Convergence::Pending => {
                self.phase = TargetPhase::Closing { error, deadline };
                TargetStep { close: round.close, action: TargetAction::Wait(deadline) }
            },
            _ => {
                self.phase = TargetPhase::Finished;
                TargetStep { close: Vec::new(), action: TargetAction::Finish(Err(error)) }
            },
        }
    }

    fn converging(&mut self, driver: &EndpointDriver, binding: ConnectionBinding, deadline: u64)
        -> (step: TargetStep)
        requires
            (TargetView {
                phase: TargetPhase::Converging { binding, deadline },
                ..old(self)@
            }).valid(),
        ensures
            ({
                let roster = driver.connections.of(old(self)@.attempt.target);
                let outcome = old(self)@.converging(binding, deadline, roster);
                &&& final(self)@ == outcome.next
                &&& step.close@ == outcome.close
                &&& step.action == outcome.action
            }),
            final(self)@.valid(),
    {
        let round = converge_to_binding(driver, binding);
        match round.state {
            Convergence::Pending => {
                self.phase = TargetPhase::Converging { binding, deadline };
                TargetStep { close: round.close, action: TargetAction::Wait(deadline) }
            },
            Convergence::Settled => {
                self.phase = TargetPhase::Finished;
                TargetStep { close: Vec::new(), action: TargetAction::Finish(Ok(binding)) }
            },
            Convergence::Failed(error) => {
                self.phase = TargetPhase::Finished;
                TargetStep { close: Vec::new(), action: TargetAction::Finish(Err(error)) }
            },
        }
    }

    fn planned(&mut self, driver: &EndpointDriver, plan: TargetPlan, now: u64) -> (step: TargetStep)
        requires
            old(self)@.phase == TargetPhase::Collecting,
            now + CONVERGENCE_TIMEOUT <= u64::MAX,
            plan == TargetPlan::Choose ==> exists|upgrade_selected: bool| #[trigger]
                old(self)@.attempt.settle(upgrade_selected) == TargetPlan::Choose,
            plan matches TargetPlan::GiveUp(error) ==> error
                == EndpointError::TargetUpgradeDidNotSettle || error
                == EndpointError::RelayUnavailable,
        ensures
            ({
                let roster = driver.connections.of(old(self)@.attempt.target);
                let outcome = old(self)@.planned(plan, now, roster);
                &&& final(self)@ == outcome.next
                &&& step.close@ == outcome.close
                &&& step.action == outcome.action
            }),
            final(self)@.valid(),
    {
        proof {
            use_type_invariant(&*self);
        }
        let deadline: u64 = now + CONVERGENCE_TIMEOUT;
        match plan {
            TargetPlan::Wait => TargetStep {
                close: Vec::new(),
                action: TargetAction::Wait(self.attempt.deadline()),
            },
            TargetPlan::GiveUp(error) => self.closing(driver, error, deadline),
            TargetPlan::Choose => match self.attempt.refusal() {
                Some(error) => self.closing(driver, error, deadline),
                None => {
                    self.phase = TargetPhase::Choosing;
                    TargetStep { close: Vec::new(), action: TargetAction::Choose }
                },
            },
        }
    }

    /// Takes the end of a wait into account. `candidate` says whether the event
    /// gained a candidate, and `upgrade_selected` whether the connection that the
    /// direct upgrade made is a candidate now.
    pub fn observe(
        &mut self,
        driver: &EndpointDriver,
        waited: Waited,
        candidate: bool,
        upgrade_selected: bool,
        now: u64,
    ) -> (step: TargetStep)
        requires
            !(old(self)@.phase == TargetPhase::Choosing || old(self)@.phase
                == TargetPhase::Finished),
            now + CONVERGENCE_TIMEOUT <= u64::MAX,
        ensures
            ({
                let roster = driver.connections.of(old(self)@.attempt.target);
                let outcome = old(self)@.after(
                    TargetInput::Waited { waited, candidate, upgrade_selected, now, roster },
                );
                &&& final(self)@ == outcome.next
                &&& step.close@ == outcome.close
                &&& step.action == outcome.action
            }),
            final(self)@.valid(),
    {
        proof {
            use_type_invariant(&*self);
        }
        match self.phase {
            TargetPhase::Closing { error, deadline } => match close_peer_after(waited) {
                Ok(()) => self.closing(driver, error, deadline),
                Err(error) => {
                    self.phase = TargetPhase::Finished;
                    TargetStep { close: Vec::new(), action: TargetAction::Finish(Err(error)) }
                },
            },
            TargetPhase::Converging { binding, deadline } => match converge_after(waited) {
                Ok(()) => self.converging(driver, binding, deadline),
                Err(error) => {
                    self.phase = TargetPhase::Finished;
                    TargetStep { close: Vec::new(), action: TargetAction::Finish(Err(error)) }
                },
            },
            _ => {
                let mut attempt = self.attempt;
                let plan = match waited {
                    Waited::Event(event) => {
                        attempt.observe(event, candidate, upgrade_selected, now)
                    },
                    Waited::Expired => attempt.expired(upgrade_selected),
                };
                self.attempt = attempt;
                self.planned(driver, plan, now)
            },
        }
    }

    /// Takes the choice among the candidates into account.
    pub fn conclude(
        &mut self,
        driver: &EndpointDriver,
        selection: Option<SelectionOutcome>,
        now: u64,
    ) -> (step: TargetStep)
        requires
            old(self)@.phase == TargetPhase::Choosing,
            now + CONVERGENCE_TIMEOUT <= u64::MAX,
        ensures
            ({
                let roster = driver.connections.of(old(self)@.attempt.target);
                let outcome = old(self)@.after(
                    TargetInput::Chosen {
                        selection: match selection {
                            Some(chosen) => Some((chosen.winner, chosen.losers@)),
                            None => None,
                        },
                        now,
                        roster,
                    },
                );
                &&& final(self)@ == outcome.next
                &&& step.close@ == outcome.close
                &&& step.action == outcome.action
            }),
            final(self)@.valid(),
    {
        proof {
            use_type_invariant(&*self);
        }
        let (chosen, losers) = self.attempt.conclude(selection);
        match chosen {
            Err(error) => {
                self.phase = TargetPhase::Finished;
                TargetStep { close: Vec::new(), action: TargetAction::Finish(Err(error)) }
            },
            Ok(binding) => {
                let deadline = convergence_deadline(now, self.attempt.connect_deadline);
                let step = self.converging(driver, binding, deadline);
                let mut close = losers;
                let mut others = step.close;
                close.append(&mut others);
                TargetStep { close, action: step.action }
            },
        }
    }
}

/// Where a way to a target stands after some inputs.
pub open spec fn target_run(way: TargetView, inputs: Seq<TargetInput>) -> TargetView
    decreases inputs.len(),
{
    if inputs.len() == 0 {
        way
    } else {
        target_run(way.after(inputs[0]).next, inputs.skip(1))
    }
}

/// One of the inputs told of a direct upgrade to the target that was made.
pub open spec fn upgrade_reported(target: PeerId, inputs: Seq<TargetInput>) -> bool {
    exists|i: int|
        0 <= i < inputs.len() && (#[trigger] inputs[i] matches TargetInput::Waited {
            waited: Waited::Event(
                EndpointEvent::DirectUpgradeFinished {
                    peer,
                    outcome: DirectUpgradeOutcome::Connected(_),
                },
            ),
            ..
        } && peer == target)
}

/// The roster that an input comes with.
pub open spec fn target_roster(input: TargetInput) -> Seq<ConnectionId> {
    match input {
        TargetInput::Waited { roster, .. } => roster,
        TargetInput::Chosen { roster, .. } => roster,
    }
}

proof fn lemma_target_step(way: TargetView, input: TargetInput)
    requires
        way.valid(),
    ensures
        way.after(input).next.valid(),
        way.after(input).next.attempt.target == way.attempt.target,
        way.after(input).next.attempt.policy == way.attempt.policy,
{
}

proof fn lemma_target_run(way: TargetView, inputs: Seq<TargetInput>)
    requires
        way.valid(),
    ensures
        ({
            let end = target_run(way, inputs);
            &&& end.valid()
            &&& end.attempt.target == way.attempt.target
            &&& end.attempt.policy == way.attempt.policy
            &&& end.attempt.outcome matches Some(DirectUpgradeOutcome::Connected(_))
                ==> end.attempt.outcome == way.attempt.outcome || upgrade_reported(
                way.attempt.target,
                inputs,
            )
        }),
    decreases inputs.len(),
{
    if inputs.len() != 0 {
        let next = way.after(inputs[0]).next;
        let rest = inputs.skip(1);
        lemma_target_step(way, inputs[0]);
        lemma_target_run(next, rest);
        let end = target_run(way, inputs);
        if end.attempt.outcome matches Some(DirectUpgradeOutcome::Connected(_)) {
            if upgrade_reported(way.attempt.target, rest) {
                let i = choose|i: int|
                    0 <= i < rest.len() && (#[trigger] rest[i] matches TargetInput::Waited {
                        waited: Waited::Event(
                            EndpointEvent::DirectUpgradeFinished {
                                peer,
                                outcome: DirectUpgradeOutcome::Connected(_),
                            },
                        ),
                        ..
                    } && peer == way.attempt.target);
                assert(inputs[i + 1] == rest[i]);
            } else if next.attempt.outcome != way.attempt.outcome {
                assert(inputs[0] is Waited);
            }
        }
    }
}

/// However the way to a target went: it succeeds only with a connection of the
/// target that is its only one, and with direct upgrades enabled only after one was
/// reported; it fails for a direct upgrade that did not settle, or that failed, only
/// once the target has no connection; and with direct upgrades disabled it never
/// fails for one that failed.
pub proof fn law_the_way_to_a_target_ends_cleanly(
    target: PeerId,
    now: u64,
    policy: DirectUpgradePolicy,
    inputs: Seq<TargetInput>,
    last: TargetInput,
)
    requires
        target_awaits(
            target_run(TargetView::initial(target, now, policy), inputs).phase,
            last,
        ),
    ensures
        ({
            let way = target_run(TargetView::initial(target, now, policy), inputs);
            let roster = target_roster(last);
            match way.after(last).action {
                TargetAction::Finish(Ok(binding)) => {
                    &&& binding.peer == target
                    &&& roster == seq![binding.connection]
                    &&& policy == DirectUpgradePolicy::Enabled ==> upgrade_reported(target, inputs)
                },
                TargetAction::Finish(Err(error)) => {
                    &&& error == EndpointError::TargetUpgradeDidNotSettle || error
                        == EndpointError::DirectUpgradeFailed ==> roster.len() == 0
                    &&& error == EndpointError::DirectUpgradeFailed ==> policy
                        == DirectUpgradePolicy::Enabled
                },
                _ => true,
            }
        }),
{
    lemma_target_run(TargetView::initial(target, now, policy), inputs);
}

// ---------------------------------------------------------------------------
// A target that comes by itself
// ---------------------------------------------------------------------------

/// Where the wait for an inbound target has got to.
#[derive(Debug, Clone, Copy, PartialEq, Eq, Structural)]
pub enum QuiescencePhase {
    /// The target is to settle on one connection.
    Settling { deadline: u64 },
    /// It did not; its connections are being closed.
    Closing { deadline: u64 },
    /// The wait has come to its end.
    Finished,
}

/// What the wait for an inbound target wants done.
#[derive(Debug, Clone, Copy, PartialEq, Eq)]
pub enum QuiescenceAction {
    /// Wait for an event until the moment.
    Wait(u64),
    Finish(Result<ConnectionBinding, EndpointError>),
}

/// The connections to close, and what to do then.
#[derive(Debug, PartialEq, Eq)]
pub struct QuiescenceStep {
    pub close: Vec<ConnectionId>,
    pub action: QuiescenceAction,
}

/// What a step of the wait comes to.
pub struct QuiescenceOutcome {
    pub next: QuiescencePhase,
    pub close: Seq<ConnectionId>,
    pub action: QuiescenceAction,
}

/// The end of the wait.
pub open spec fn quiescence_end(result: Result<ConnectionBinding, EndpointError>)
    -> QuiescenceOutcome {
    QuiescenceOutcome {
        next: QuiescencePhase::Finished,
        close: Seq::empty(),
        action: QuiescenceAction::Finish(result),
    }
}

/// A target that has come to rest with one connection is bound to it; `settled`
/// says whether its direct upgrade has come to rest.
pub open spec fn quiescence_settling(
    target: PeerId,
    deadline: u64,
    settled: bool,
    roster: Seq<ConnectionId>,
) -> QuiescenceOutcome {
    if settled && roster.len() == 1 {
        quiescence_end(Ok(ConnectionBinding { peer: target, connection: roster[0] }))
    } else {
        QuiescenceOutcome {
            next: QuiescencePhase::Settling { deadline },
            close: Seq::empty(),
            action: QuiescenceAction::Wait(deadline),
        }
    }
}

/// The failure is reported once no connection of the target is left.
pub open spec fn quiescence_closing(deadline: u64, roster: Seq<ConnectionId>) -> QuiescenceOutcome {
    if roster.len() == 0 {
        quiescence_end(Err(EndpointError::TargetUpgradeDidNotSettle))
    } else {
        QuiescenceOutcome {
            next: QuiescencePhase::Closing { deadline },
            close: roster,
            action: QuiescenceAction::Wait(deadline),
        }
    }
}

/// What follows the end of a wait.
pub open spec fn quiescence_after(
    target: PeerId,
    phase: QuiescencePhase,
    waited: Waited,
    settled: bool,
    now: u64,
    roster: Seq<ConnectionId>,
) -> QuiescenceOutcome {
    match (phase, waited) {
        (QuiescencePhase::Settling { deadline }, Waited::Event(_)) => quiescence_settling(
            target,
            deadline,
            settled,
            roster,
        ),
        (QuiescencePhase::Settling { .. }, Waited::Expired) => quiescence_closing(
            (now + CONVERGENCE_TIMEOUT) as u64,
            roster,
        ),
        (QuiescencePhase::Closing { deadline }, Waited::Event(_)) => quiescence_closing(
            deadline,
            roster,
        ),
        _ => quiescence_end(Err(EndpointError::ConnectionCloseDidNotConverge)),
    }
}

/// The wait for an inbound target to settle on one connection.
pub struct TargetQuiescence {
    target: PeerId,
    phase: QuiescencePhase,
}

impl TargetQuiescence {
    /// The target.
    pub closed spec fn peer(self) -> PeerId {
        self.target
    }

    /// Where the wait has got to.
    pub closed spec fn at(self) -> QuiescencePhase {
        self.phase
    }

    /// Begins the wait; a target that has settled already ends it.
    pub fn new(driver: &EndpointDriver, target: PeerId, now: u64) -> (begun: (
        Self,
        QuiescenceStep,
    ))
        requires
            now + TARGET_SETTLE_TIMEOUT <= u64::MAX,
        ensures
            ({
                let outcome = quiescence_settling(
                    target,
                    (now + TARGET_SETTLE_TIMEOUT) as u64,
                    driver.upgrade_settled(target),
                    driver.connections.of(target),
                );
                &&& begun.0.peer() == target
                &&& begun.0.at() == outcome.next
                &&& begun.1.close@ == outcome.close
                &&& begun.1.action == outcome.action
            }),
    {
        let deadline: u64 = now + TARGET_SETTLE_TIMEOUT;
        let mut wait = TargetQuiescence { target, phase: QuiescencePhase::Settling { deadline } };
        let step = wait.settling(driver, deadline);
        (wait, step)
    }

    fn settling(&mut self, driver: &EndpointDriver, deadline: u64) -> (step: QuiescenceStep)
        requires
            old(self).at() == (QuiescencePhase::Settling { deadline }),
        ensures
            ({
                let outcome = quiescence_settling(
                    old(self).peer(),
                    deadline,
                    driver.upgrade_settled(old(self).peer()),
                    driver.connections.of(old(self).peer()),
                );
                &&& final(self).peer() == old(self).peer()
                &&& final(self).at() == outcome.next
                &&& step.close@ == outcome.close
                &&& step.action == outcome.action
            }),
    {
        match wait_for_target_quiescence(driver, self.target) {
            Some(binding) => {
                self.phase = QuiescencePhase::Finished;
                QuiescenceStep { close: Vec::new(), action: QuiescenceAction::Finish(Ok(binding)) }
            },
            None => QuiescenceStep { close: Vec::new(), action: QuiescenceAction::Wait(deadline) },
        }
    }

    fn closing(&mut self, driver: &EndpointDriver, deadline: u64) -> (step: QuiescenceStep)
        ensures
            ({
                let outcome = quiescence_closing(
                    deadline,
                    driver.connections.of(old(self).peer()),
                );
                &&& final(self).peer() == old(self).peer()
                &&& final(self).at() == outcome.next
                &&& step.close@ == outcome.close
                &&& step.action == outcome.action
            }),
    {
        let round = close_peer_and_wait(driver, self.target);
        match round.state {
            Convergence::Pending => {
                self.phase = QuiescencePhase::Closing { deadline };
                QuiescenceStep { close: round.close, action: QuiescenceAction::Wait(deadline) }
            },
            _ => {
                self.phase = QuiescencePhase::Finished;
                QuiescenceStep {
                    close: Vec::new(),
                    action: QuiescenceAction::Finish(
                        Err(EndpointError::TargetUpgradeDidNotSettle),
                    ),
                }
            },
        }
    }

    /// Takes the end of a wait into account.
    pub fn observe(&mut self, driver: &EndpointDriver, waited: Waited, now: u64) -> (step:
        QuiescenceStep)
        requires
            old(self).at() != QuiescencePhase::Finished,
            now + CONVERGENCE_TIMEOUT <= u64::MAX,
        ensures
            ({
                let outcome = quiescence_after(
                    old(self).peer(),
                    old(self).at(),
                    waited,
                    driver.upgrade_settled(old(self).peer()),
                    now,
                    driver.connections.of(old(self).peer()),
                );
                &&& final(self).peer() == old(self).peer()
                &&& final(self).at() == outcome.next
                &&& step.close@ == outcome.close
                &&& step.action == outcome.action
            }),
    {
        match (self.phase, waited) {
            (QuiescencePhase::Settling { deadline }, Waited::Event(_)) => {
                self.settling(driver, deadline)
            },
            (QuiescencePhase::Settling { .. }, Waited::Expired) => {
                self.closing(driver, now + CONVERGENCE_TIMEOUT)
            },
            (QuiescencePhase::Closing { deadline }, Waited::Event(_)) => {
                self.closing(driver, deadline)
            },
            _ => {
                self.phase = QuiescencePhase::Finished;
                QuiescenceStep {
                    close: Vec::new(),
                    action: QuiescenceAction::Finish(
                        Err(EndpointError::ConnectionCloseDidNotConverge),
                    ),
                }
            },
        }
    }
}

/// An inbound target is bound only to its only connection, after its direct upgrade
/// came to rest; that it did not settle is reported only once it has no connection.
pub proof fn law_an_inbound_target_settles_or_is_closed(
    target: PeerId,
    phase: QuiescencePhase,
    waited: Waited,
    settled: bool,
    now: u64,
    roster: Seq<ConnectionId>,
)
    requires
        phase != QuiescencePhase::Finished,
    ensures
        match quiescence_after(target, phase, waited, settled, now, roster).action {
            QuiescenceAction::Finish(Ok(binding)) => {
                &&& binding.peer == target
                &&& roster == seq![binding.connection]
                &&& settled
            },
            QuiescenceAction::Finish(Err(error)) => {
                ||| error == EndpointError::TargetUpgradeDidNotSettle && roster.len() == 0
                ||| error == EndpointError::ConnectionCloseDidNotConverge
            },
            QuiescenceAction::Wait(_) => true,
        },
{
    if roster.len() == 1 {
        assert(roster =~= seq![roster[0]]);
    }
}

// ---------------------------------------------------------------------------
// The relay
// ---------------------------------------------------------------------------

/// Where the way to the relay has got to.
#[derive(Debug, PartialEq, Eq)]
pub enum RelayPhase {
    /// What is left of earlier attempts is drained.
    Clearing,
    /// The attempt is under way.
    Attempting,
    /// What the attempt left behind is drained.
    Settling(Result<RelayConnection, EndpointError>),
    /// The way has come to its end.
    Finished,
}

/// What the way to the relay wants done.
#[derive(Debug, PartialEq, Eq)]
pub enum RelayAction {
    /// Wait for an event until the moment.
    Wait(u64),
    /// Attempt to reach the relay until the moment.
    Attempt(u64),
    Finish(Result<RelayConnection, EndpointError>),
}

/// The connections to close, and what to do then.
#[derive(Debug, PartialEq, Eq)]
pub struct RelayStep {
    pub close: Vec<ConnectionId>,
    pub action: RelayAction,
}

/// What an input comes to.
pub struct RelayOutcome {
    pub next: RelayView,
    pub close: Seq<ConnectionId>,
    pub action: RelayAction,
}

/// The way to the relay: its peer, the deadline of the whole, and where it has got
/// to.
pub struct RelayView {
    pub relay: PeerId,
    pub deadline: u64,
    pub phase: RelayPhase,
}

impl RelayView {
    /// The connection that a drain leaves.
    pub open spec fn keep(self) -> Option<ConnectionBinding> {
        match self.phase {
            RelayPhase::Settling(Ok(relay)) => Some(relay.binding),
            _ => None,
        }
    }

    /// The end of the way.
    pub open spec fn finish(self, result: Result<RelayConnection, EndpointError>) -> RelayOutcome {
        RelayOutcome {
            next: RelayView { phase: RelayPhase::Finished, ..self },
            close: Seq::empty(),
            action: RelayAction::Finish(result),
        }
    }

    /// What a round of draining comes to, with the relay's roster. The first drain
    /// is followed by the attempt, and the second by the end.
    pub open spec fn drained(self, roster: Seq<ConnectionId>, dials_pending: bool) -> RelayOutcome {
        let close = crate::connecting::surplus(roster, self.keep());
        match crate::connecting::drain_state(roster, roster, self.keep(), dials_pending) {
            Convergence::Pending => RelayOutcome {
                next: self,
                close,
                action: RelayAction::Wait(self.deadline),
            },
            Convergence::Failed(error) => RelayOutcome { close, ..self.finish(Err(error)) },
            Convergence::Settled => match self.phase {
                RelayPhase::Settling(attempt) => RelayOutcome { close, ..self.finish(attempt) },
                _ => RelayOutcome {
                    next: RelayView { phase: RelayPhase::Attempting, ..self },
                    close,
                    action: RelayAction::Attempt((self.deadline - RELAY_DRAIN_WINDOW) as u64),
                },
            },
        }
    }

    /// What the end of a wait comes to.
    pub open spec fn waited(
        self,
        waited: Waited,
        roster: Seq<ConnectionId>,
        dials_pending: bool,
    ) -> RelayOutcome {
        match waited {
            Waited::Expired => self.finish(Err(EndpointError::RelayDidNotConverge)),
            Waited::Event(event) => if self.keep() matches Some(binding) && event == (
            EndpointEvent::Closed { peer: binding.peer, connection: binding.connection }) {
                self.finish(Err(EndpointError::SelectedConnectionLost))
            } else {
                self.drained(roster, dials_pending)
            },
        }
    }

    /// What the end of the attempt comes to.
    pub open spec fn attempted(
        self,
        attempt: Result<RelayConnection, EndpointError>,
        roster: Seq<ConnectionId>,
        dials_pending: bool,
    ) -> RelayOutcome {
        RelayView { phase: RelayPhase::Settling(attempt), ..self }.drained(roster, dials_pending)
    }

    /// The kept connection is one of the relay, and there is time to drain.
    pub open spec fn valid(self) -> bool {
        &&& self.deadline >= RELAY_DRAIN_WINDOW
        &&& self.keep() matches Some(binding) ==> binding.peer == self.relay
    }
}

/// The way to the relay: a drain, an attempt and another drain, all before one
/// deadline.
pub struct RelayConnecting {
    relay: PeerId,
    deadline: u64,
    phase: RelayPhase,
}

impl View for RelayConnecting {
    type V = RelayView;

    closed spec fn view(&self) -> RelayView {
        RelayView { relay: self.relay, deadline: self.deadline, phase: self.phase }
    }
}

impl RelayConnecting {
    #[verifier::type_invariant]
    spec fn wf(self) -> bool {
        self@.valid()
    }

    /// Begins the way by draining what is left of earlier ones.
    pub fn new(driver: &EndpointDriver, relay: PeerId, now: u64) -> (begun: (Self, RelayStep))
        requires
            now + CONNECT_TIMEOUT <= u64::MAX,
        ensures
            ({
                let way = RelayView {
                    relay,
                    deadline: (now + CONNECT_TIMEOUT) as u64,
                    phase: RelayPhase::Clearing,
                };
                let outcome = way.drained(
                    driver.connections.of(relay),
                    driver.pending_relay_dials@.len() != 0,
                );
                &&& begun.0@ == outcome.next
                &&& begun.1.close@ == outcome.close
                &&& begun.1.action == outcome.action
            }),
            begun.0@.valid(),
    {
        let (deadline, _) = relay_deadlines(now);
        let mut way = RelayConnecting { relay, deadline, phase: RelayPhase::Clearing };
        let step = way.drain(driver);
        (way, step)
    }

    fn keep(&self) -> (keep: Option<ConnectionBinding>)
        ensures
            keep == self@.keep(),
    {
        match &self.phase {
            RelayPhase::Settling(Ok(relay)) => Some(relay.binding()),
            _ => None,
        }
    }

    /// Takes what the phase holds and ends the way.
    fn end(&mut self) -> (phase: RelayPhase)
        ensures
            phase == old(self)@.phase,
            final(self)@ == (RelayView { phase: RelayPhase::Finished, ..old(self)@ }),
    {
        proof {
            use_type_invariant(&*self);
        }
        let mut phase = RelayPhase::Finished;
        std::mem::swap(&mut phase, &mut self.phase);
        phase
    }

    fn drain(&mut self, driver: &EndpointDriver) -> (step: RelayStep)
        requires
            old(self)@.phase is Clearing || old(self)@.phase is Settling,
        ensures
            ({
                let outcome = old(self)@.drained(
                    driver.connections.of(old(self)@.relay),
                    driver.pending_relay_dials@.len() != 0,
                );
                &&& final(self)@ == outcome.next
                &&& step.close@ == outcome.close
                &&& step.action == outcome.action
            }),
            final(self)@.valid(),
    {
        proof {
            use_type_invariant(&*self);
        }
        let round = drain_relay_state(driver, self.relay, self.keep());
        match round.state {
            Convergence::Pending => RelayStep {
                close: round.close,
                action: RelayAction::Wait(self.deadline),
            },
            Convergence::Failed(error) => {
                self.end();
                RelayStep { close: round.close, action: RelayAction::Finish(Err(error)) }
            },
            Convergence::Settled => {
                let deadline: u64 = self.deadline - RELAY_DRAIN_WINDOW;
                match self.end() {
                    RelayPhase::Settling(attempt) => RelayStep {
                        close: round.close,
                        action: RelayAction::Finish(configured_relay_result(attempt, Ok(()))),
                    },
                    _ => {
                        self.phase = RelayPhase::Attempting;
                        RelayStep { close: round.close, action: RelayAction::Attempt(deadline) }
                    },
                }
            },
        }
    }

    /// Takes the end of a wait into account.
    pub fn observe(&mut self, driver: &EndpointDriver, waited: Waited) -> (step: RelayStep)
        requires
            old(self)@.phase is Clearing || old(self)@.phase is Settling,
        ensures
            ({
                let outcome = old(self)@.waited(
                    waited,
                    driver.connections.of(old(self)@.relay),
                    driver.pending_relay_dials@.len() != 0,
                );
                &&& final(self)@ == outcome.next
                &&& step.close@ == outcome.close
                &&& step.action == outcome.action
            }),
            final(self)@.valid(),
    {
        proof {
            use_type_invariant(&*self);
        }
        match drain_after(waited, self.keep()) {
            Ok(()) => self.drain(driver),
            Err(error) => {
                self.end();
                RelayStep { close: Vec::new(), action: RelayAction::Finish(Err(error)) }
            },
        }
    }

    /// Takes the end of the attempt into account: what it left behind is drained,
    /// but for the connection that it gained.
    pub fn attempted(
        &mut self,
        driver: &EndpointDriver,
        attempt: Result<RelayConnection, EndpointError>,
    ) -> (step: RelayStep)
        requires
            old(self)@.phase is Attempting,
            attempt matches Ok(relay) ==> relay.binding.peer == old(self)@.relay,
        ensures
            ({
                let outcome = old(self)@.attempted(
                    attempt,
                    driver.connections.of(old(self)@.relay),
                    driver.pending_relay_dials@.len() != 0,
                );
                &&& final(self)@ == outcome.next
                &&& step.close@ == outcome.close
                &&& step.action == outcome.action
            }),
            final(self)@.valid(),
    {
        proof {
            use_type_invariant(&*self);
        }
        self.phase = RelayPhase::Settling(attempt);
        self.drain(driver)
    }
}

/// A way to the relay succeeds only once the connection that the attempt gained is
/// the only one and no dial is pending; a failure of the attempt is reported only
/// once no connection is left and no dial is pending. Any other failure is one of
/// draining.
pub proof fn law_the_way_to_the_relay_ends_drained(
    way: RelayView,
    roster: Seq<ConnectionId>,
    dials_pending: bool,
)
    requires
        way.phase is Clearing || way.phase is Settling,
    ensures
        match way.drained(roster, dials_pending).action {
            RelayAction::Finish(Ok(relay)) => {
                &&& way.phase == RelayPhase::Settling(Ok(relay))
                &&& roster == seq![relay.binding.connection]
                &&& !dials_pending
            },
            RelayAction::Finish(Err(error)) => {
                ||| error == EndpointError::SelectedConnectionLost
                ||| way.phase == RelayPhase::Settling(Err(error)) && roster.len() == 0
                    && !dials_pending
            },
            RelayAction::Attempt(_) => way.phase is Clearing && roster.len() == 0
                && !dials_pending,
            RelayAction::Wait(_) => true,
        },
{
}

/// Candidates are collected, and nothing is closed, until there is something to choose
/// from; then a choice is made, at once and without closing anything. A direct upgrade
/// whose connection is a candidate makes for a choice once the selection window is over,
/// and without direct upgrades the end of the window does.
pub proof fn law_a_target_is_chosen_in_time(
    way: TargetView,
    event: EndpointEvent,
    connection: ConnectionId,
    candidate: bool,
    upgrade_selected: bool,
    now: u64,
    roster: Seq<ConnectionId>,
)
    requires
        way.valid(),
        way.phase == TargetPhase::Collecting,
        now + TARGET_SETTLE_TIMEOUT <= u64::MAX,
        now + crate::network::TARGET_SELECTION_WINDOW <= u64::MAX,
    ensures
        ({
            let on_event = way.after(
                TargetInput::Waited {
                    waited: Waited::Event(event),
                    candidate,
                    upgrade_selected,
                    now,
                    roster,
                },
            );
            let on_expiry = way.after(
                TargetInput::Waited {
                    waited: Waited::Expired,
                    candidate,
                    upgrade_selected,
                    now,
                    roster,
                },
            );
            let attempt = way.attempt;
            let enabled = attempt.policy == DirectUpgradePolicy::Enabled;
            &&& !attempt.selection_elapsed ==> {
                &&& on_event.next.phase == TargetPhase::Collecting
                &&& on_event.action is Wait
                &&& on_event.action->Wait_0 <= attempt.connect_deadline
                &&& on_event.close == Seq::<ConnectionId>::empty()
            }
            &&& attempt.selection_elapsed && enabled && upgrade_selected && event == (
            EndpointEvent::DirectUpgradeFinished {
                peer: attempt.target,
                outcome: DirectUpgradeOutcome::Connected(connection),
            }) ==> {
                &&& on_event.next.phase == TargetPhase::Choosing
                &&& on_event.action == TargetAction::Choose
                &&& on_event.close == Seq::<ConnectionId>::empty()
            }
            &&& !enabled && attempt.has_candidate && !attempt.selection_elapsed ==> {
                &&& on_expiry.next.phase == TargetPhase::Choosing
                &&& on_expiry.action == TargetAction::Choose
                &&& on_expiry.close == Seq::<ConnectionId>::empty()
            }
            &&& enabled && attempt.outcome is None && attempt.has_candidate
                && !attempt.selection_elapsed ==> {
                &&& on_expiry.next.phase == TargetPhase::Collecting
                &&& on_expiry.next.attempt.selection_elapsed
                &&& on_expiry.action == TargetAction::Wait(attempt.connect_deadline)
                &&& on_expiry.close == Seq::<ConnectionId>::empty()
            }
            &&& on_event.next.attempt.target == attempt.target
            &&& on_event.next.attempt.policy == attempt.policy
        }),
{
}

/// What was chosen is kept and the rest is closed: the way ends with the winner as soon as
/// it is the only connection, goes on closing the losers and every other one until then,
/// and fails when the winner is gone, or when there was nothing to choose from.
pub proof fn law_the_chosen_connection_is_kept(
    way: TargetView,
    winner: ConnectionId,
    losers: Seq<ConnectionId>,
    now: u64,
    roster: Seq<ConnectionId>,
)
    requires
        way.phase == TargetPhase::Choosing,
        now + CONVERGENCE_TIMEOUT <= u64::MAX,
    ensures
        ({
            let outcome = way.after(
                TargetInput::Chosen { selection: Some((winner, losers)), now, roster },
            );
            let binding = ConnectionBinding { peer: way.attempt.target, connection: winner };
            &&& roster == seq![winner] ==> outcome.action == TargetAction::Finish(Ok(binding))
                && outcome.close == losers
            &&& !roster.contains(winner) ==> outcome.action == TargetAction::Finish(
                Err(EndpointError::SelectedConnectionLost),
            ) && outcome.close == losers
            &&& roster.contains(winner) && roster.len() > 1 ==> {
                &&& outcome.next.phase is Converging
                &&& outcome.next.phase->Converging_binding == binding
                &&& outcome.action == TargetAction::Wait(outcome.next.phase->Converging_deadline)
                &&& outcome.next.phase->Converging_deadline <= now + CONVERGENCE_TIMEOUT
                &&& outcome.next.phase->Converging_deadline <= way.attempt.connect_deadline
                &&& outcome.next.phase->Converging_deadline == now + CONVERGENCE_TIMEOUT
                    || outcome.next.phase->Converging_deadline == way.attempt.connect_deadline
                &&& outcome.close.len() >= losers.len()
                &&& outcome.close.take(losers.len() as int) == losers
                &&& forall|connection: ConnectionId| #[trigger]
                    roster.contains(connection) && connection != winner ==> outcome.close.contains(
                        connection,
                    )
                &&& losers.contains(winner) || !outcome.close.contains(winner)
            }
        }),
        way.after(TargetInput::Chosen { selection: None, now, roster }).action
            == TargetAction::Finish(Err(EndpointError::RelayUnavailable)),
{
    let binding = ConnectionBinding { peer: way.attempt.target, connection: winner };
    let others = |connection: ConnectionId| connection != binding.connection;
    crate::connecting::law_convergence_goes_on_until_it_is_alone(roster, binding);
    crate::connecting::law_convergence_keeps_the_authorized_connection(roster, binding);
    let outcome = way.after(
        TargetInput::Chosen { selection: Some((winner, losers)), now, roster },
    );
    if roster == seq![winner] {
        assert(roster[0] == winner);
        assert(outcome.close =~= losers);
    } else if !roster.contains(winner) {
        assert(outcome.close =~= losers);
    } else if roster.len() > 1 {
        let rest = roster.filter(others);
        assert(outcome.close == losers + rest);
        assert(outcome.close.take(losers.len() as int) =~= losers);
        assert forall|connection: ConnectionId| #[trigger]
            roster.contains(connection) && connection != winner implies outcome.close.contains(
            connection,
        ) by {
            let i = choose|i: int| 0 <= i < roster.len() && roster[i] == connection;
            roster.lemma_filter_contains(others, i);
            let k = choose|k: int| 0 <= k < rest.len() && rest[k] == connection;
            assert(outcome.close[losers.len() + k] == connection);
        }
        if outcome.close.contains(winner) && !losers.contains(winner) {
            let k = choose|k: int| 0 <= k < outcome.close.len() && outcome.close[k] == winner;
            if k < losers.len() {
                assert(losers[k] == winner);
            } else {
                assert(rest[k - losers.len()] == winner);
                assert(rest.contains(winner));
            }
        }
    }
}

/// Converging ends well exactly when the kept connection is alone, fails when it is gone
/// or time runs out, and otherwise closes every other one until the same deadline.
pub proof fn law_converging_goes_on_to_its_end(
    way: TargetView,
    binding: ConnectionBinding,
    deadline: u64,
    event: EndpointEvent,
    candidate: bool,
    upgrade_selected: bool,
    now: u64,
    roster: Seq<ConnectionId>,
)
    requires
        way.phase == (TargetPhase::Converging { binding, deadline }),
    ensures
        ({
            let outcome = way.after(
                TargetInput::Waited {
                    waited: Waited::Event(event),
                    candidate,
                    upgrade_selected,
                    now,
                    roster,
                },
            );
            let late = way.after(
                TargetInput::Waited {
                    waited: Waited::Expired,
                    candidate,
                    upgrade_selected,
                    now,
                    roster,
                },
            );
            &&& outcome.action == TargetAction::Finish(Ok(binding)) <==> roster == seq![
                binding.connection,
            ]
            &&& outcome.action == TargetAction::Finish(Err(EndpointError::SelectedConnectionLost))
                <==> !roster.contains(binding.connection)
            &&& roster.contains(binding.connection) && roster.len() > 1 ==> outcome.action
                == TargetAction::Wait(deadline) && outcome.next == way && outcome.close
                == roster.filter(|connection: ConnectionId| connection != binding.connection)
            &&& late.action == TargetAction::Finish(Err(EndpointError::RelayDidNotConverge))
        }),
{
    crate::connecting::law_convergence_goes_on_until_it_is_alone(roster, binding);
    if roster == seq![binding.connection] {
        assert(roster[0] == binding.connection);
    }
    if roster.contains(binding.connection) && roster.len() == 1 {
        assert(roster =~= seq![binding.connection]);
    }
}

/// A target that is given up, for want of time or for a direct upgrade that failed, has
/// every connection closed before the failure is reported: at once if it has none.
pub proof fn law_a_target_that_is_given_up_is_closed(
    way: TargetView,
    candidate: bool,
    upgrade_selected: bool,
    now: u64,
    roster: Seq<ConnectionId>,
)
    requires
        way.valid(),
        way.phase == TargetPhase::Collecting,
        now + CONVERGENCE_TIMEOUT <= u64::MAX,
        now + crate::network::TARGET_SELECTION_WINDOW <= u64::MAX,
    ensures
        ({
            let attempt = way.attempt;
            let late = way.after(
                TargetInput::Waited {
                    waited: Waited::Expired,
                    candidate,
                    upgrade_selected,
                    now,
                    roster,
                },
            );
            let failed = way.after(
                TargetInput::Waited {
                    waited: Waited::Event(
                        EndpointEvent::DirectUpgradeFinished {
                            peer: attempt.target,
                            outcome: DirectUpgradeOutcome::Failed,
                        },
                    ),
                    candidate,
                    upgrade_selected,
                    now,
                    roster,
                },
            );
            let why = if attempt.has_candidate {
                EndpointError::TargetUpgradeDidNotSettle
            } else {
                EndpointError::RelayUnavailable
            };
            let until = (now + CONVERGENCE_TIMEOUT) as u64;
            &&& !attempt.has_candidate || attempt.selection_elapsed ==> {
                &&& roster.len() == 0 ==> late.action == TargetAction::Finish(Err(why))
                &&& roster.len() > 0 ==> late.action == TargetAction::Wait(until) && late.close
                    == roster && late.next.phase == (TargetPhase::Closing {
                    error: why,
                    deadline: until,
                })
            }
            &&& attempt.selection_elapsed && attempt.policy == DirectUpgradePolicy::Enabled ==> {
                &&& roster.len() == 0 ==> failed.action == TargetAction::Finish(
                    Err(EndpointError::DirectUpgradeFailed),
                )
                &&& roster.len() > 0 ==> failed.action == TargetAction::Wait(until) && failed.close
                    == roster && failed.next.phase == (TargetPhase::Closing {
                    error: EndpointError::DirectUpgradeFailed,
                    deadline: until,
                })
            }
        }),
{
}

/// Closing goes on, for every connection that is left, until none is, and then reports
/// why the target was given up; connections that do not close in time are a failure of
/// their own.
pub proof fn law_closing_goes_on_to_its_end(
    way: TargetView,
    error: EndpointError,
    deadline: u64,
    event: EndpointEvent,
    candidate: bool,
    upgrade_selected: bool,
    now: u64,
    roster: Seq<ConnectionId>,
)
    requires
        way.phase == (TargetPhase::Closing { error, deadline }),
    ensures
        ({
            let outcome = way.after(
                TargetInput::Waited {
                    waited: Waited::Event(event),
                    candidate,
                    upgrade_selected,
                    now,
                    roster,
                },
            );
            let late = way.after(
                TargetInput::Waited {
                    waited: Waited::Expired,
                    candidate,
                    upgrade_selected,
                    now,
                    roster,
                },
            );
            &&& roster.len() == 0 ==> outcome.action == TargetAction::Finish(Err(error))
            &&& roster.len() > 0 ==> outcome.action == TargetAction::Wait(deadline)
                && outcome.close == roster && outcome.next == way
            &&& late.action == TargetAction::Finish(
                Err(EndpointError::ConnectionCloseDidNotConverge),
            )
        }),
{
}

/// The way to a target begins by collecting candidates, for [`TARGET_SETTLE_TIMEOUT`] in
/// all.
pub proof fn law_a_way_begins_by_collecting(
    target: PeerId,
    now: u64,
    policy: DirectUpgradePolicy,
)
    requires
        now + TARGET_SETTLE_TIMEOUT <= u64::MAX,
    ensures
        ({
            let way = TargetView::initial(target, now, policy);
            &&& way.valid()
            &&& way.phase == TargetPhase::Collecting
            &&& way.attempt.target == target
            &&& way.attempt.policy == policy
            &&& way.attempt.connect_deadline == now + TARGET_SETTLE_TIMEOUT
            &&& !way.attempt.has_candidate && !way.attempt.selection_elapsed
            &&& way.attempt.outcome is None && way.attempt.selection_deadline is None
        }),
{
}

/// An inbound target is bound to its connection as soon as its direct upgrade has come to
/// rest and that connection is the only one; until then it is waited for. When time runs
/// out its connections are closed, and once none is left the failure is reported.
pub proof fn law_an_inbound_target_is_waited_for(
    target: PeerId,
    deadline: u64,
    event: EndpointEvent,
    settled: bool,
    now: u64,
    roster: Seq<ConnectionId>,
)
    requires
        now + CONVERGENCE_TIMEOUT <= u64::MAX,
    ensures
        ({
            let settling = QuiescencePhase::Settling { deadline };
            let closing = QuiescencePhase::Closing { deadline };
            let event = Waited::Event(event);
            let came = quiescence_after(target, settling, event, settled, now, roster);
            let late = quiescence_after(target, settling, Waited::Expired, settled, now, roster);
            let going = quiescence_after(target, closing, event, settled, now, roster);
            let stuck = quiescence_after(target, closing, Waited::Expired, settled, now, roster);
            let until = (now + CONVERGENCE_TIMEOUT) as u64;
            let unsettled = QuiescenceAction::Finish(Err(EndpointError::TargetUpgradeDidNotSettle));
            &&& settled && roster.len() == 1 ==> came.action == QuiescenceAction::Finish(
                Ok(ConnectionBinding { peer: target, connection: roster[0] }),
            )
            &&& !(settled && roster.len() == 1) ==> came.action == QuiescenceAction::Wait(deadline)
                && came.next == settling
            &&& came.close == Seq::<ConnectionId>::empty()
            &&& roster.len() == 0 ==> late.action == unsettled && going.action == unsettled
            &&& roster.len() > 0 ==> {
                &&& late.action == QuiescenceAction::Wait(until)
                &&& late.next == (QuiescencePhase::Closing { deadline: until })
                &&& late.close == roster
                &&& going.action == QuiescenceAction::Wait(deadline)
                &&& going.next == closing
                &&& going.close == roster
            }
            &&& stuck.action == QuiescenceAction::Finish(
                Err(EndpointError::ConnectionCloseDidNotConverge),
            )
        }),
{
}

/// The relay is attempted as soon as what is left of earlier attempts is gone, with time
/// left to drain; until then every connection that is left is closed.
pub proof fn law_the_relay_is_attempted_once_it_is_clear(
    way: RelayView,
    roster: Seq<ConnectionId>,
    dials_pending: bool,
)
    requires
        way.valid(),
        way.phase is Clearing,
    ensures
        ({
            let outcome = way.drained(roster, dials_pending);
            &&& roster.len() == 0 && !dials_pending ==> {
                &&& outcome.action is Attempt
                &&& outcome.action->Attempt_0 + RELAY_DRAIN_WINDOW == way.deadline
                &&& outcome.next.phase is Attempting
                &&& outcome.next.deadline == way.deadline
                &&& outcome.next.relay == way.relay
            }
            &&& roster.len() > 0 || dials_pending ==> outcome.action == RelayAction::Wait(
                way.deadline,
            ) && outcome.next == way
            &&& forall|connection: ConnectionId| #[trigger]
                outcome.close.contains(connection) <==> roster.contains(connection)
        }),
{
    crate::connecting::law_a_drain_closes_the_rest(roster, None, dials_pending);
}

/// What the attempt came to is the result, once everything else is gone: a connection,
/// when it is the only one; a failure, when none is left. Until then the rest is closed,
/// and a gained connection that went away is a failure.
pub proof fn law_the_attempt_decides_once_the_rest_is_gone(
    way: RelayView,
    attempt: Result<RelayConnection, EndpointError>,
    roster: Seq<ConnectionId>,
    dials_pending: bool,
)
    ensures
        ({
            let settling = RelayView { phase: RelayPhase::Settling(attempt), ..way };
            let outcome = way.attempted(attempt, roster, dials_pending);
            &&& outcome == settling.drained(roster, dials_pending)
            &&& attempt matches Err(error) ==> {
                &&& roster.len() == 0 && !dials_pending ==> outcome.action == RelayAction::Finish(
                    Err(error),
                )
                &&& roster.len() > 0 || dials_pending ==> outcome.action == RelayAction::Wait(
                    way.deadline,
                ) && outcome.next == settling
                &&& forall|connection: ConnectionId| #[trigger]
                    outcome.close.contains(connection) <==> roster.contains(connection)
            }
            &&& attempt matches Ok(relay) ==> {
                let kept = relay.binding.connection;
                &&& roster == seq![kept] && !dials_pending ==> outcome.action
                    == RelayAction::Finish(Ok(relay))
                &&& roster.len() == 0 ==> outcome.action == RelayAction::Finish(
                    Err(EndpointError::SelectedConnectionLost),
                )
                &&& roster.len() > 0 && (roster != seq![kept] || dials_pending) ==> outcome.action
                    == RelayAction::Wait(way.deadline) && outcome.next == settling
                &&& forall|connection: ConnectionId| #[trigger]
                    outcome.close.contains(connection) <==> roster.contains(connection)
                        && connection != kept
            }
        }),
{
    match attempt {
        Ok(relay) => {
            crate::connecting::law_a_drain_closes_the_rest(
                roster,
                Some(relay.binding),
                dials_pending,
            );
        },
        Err(_) => {
            crate::connecting::law_a_drain_closes_the_rest(roster, None, dials_pending);
        },
    }
}

/// A drain that takes too long is a failure, and so is the loss of the gained connection;
/// after every other event the drain goes on.
pub proof fn law_a_drain_goes_on_to_its_end(
    way: RelayView,
    event: EndpointEvent,
    roster: Seq<ConnectionId>,
    dials_pending: bool,
)
    ensures
        way.waited(Waited::Expired, roster, dials_pending).action == RelayAction::Finish(
            Err(EndpointError::RelayDidNotConverge),
        ),
        way.phase matches RelayPhase::Settling(Ok(relay)) && event == (EndpointEvent::Closed {
            peer: relay.binding.peer,
            connection: relay.binding.connection,
        }) ==> way.waited(Waited::Event(event), roster, dials_pending).action
            == RelayAction::Finish(Err(EndpointError::SelectedConnectionLost)),
        !(way.phase matches RelayPhase::Settling(Ok(relay)) && event == (EndpointEvent::Closed {
            peer: relay.binding.peer,
            connection: relay.binding.connection,
        })) ==> way.waited(Waited::Event(event), roster, dials_pending) == way.drained(
            roster,
            dials_pending,
        ),
{
}

/// As long as candidates are collected, in the selection window or after it, a connection
/// that the target establishes is offered and one that it closes is withdrawn; afterwards
/// the selection is left alone.
pub proof fn law_connections_are_offered_while_collecting(
    way: TargetView,
    connection: ConnectionId,
    relayed: bool,
    event: EndpointEvent,
)
    ensures
        ({
            let peer = way.attempt.target;
            &&& way.phase == TargetPhase::Collecting ==> {
                &&& way.ordered(EndpointEvent::Established { peer, connection, relayed })
                    == SelectionOrder::Offer(connection)
                &&& way.ordered(EndpointEvent::Closed { peer, connection })
                    == SelectionOrder::Withdraw(connection)
            }
            &&& way.phase != TargetPhase::Collecting ==> way.ordered(event)
                == SelectionOrder::Ignore
        }),
{
}

/// A way to a target, the wait for an inbound one and a way to the relay have come to
/// their end exactly when they say what they ended with.
pub proof fn law_every_way_ends_with_a_result(
    way: TargetView,
    input: TargetInput,
    target: PeerId,
    phase: QuiescencePhase,
    relay: RelayView,
    waited: Waited,
    settled: bool,
    now: u64,
    roster: Seq<ConnectionId>,
    dials_pending: bool,
)
    requires
        target_awaits(way.phase, input),
        relay.phase is Clearing || relay.phase is Settling,
    ensures
        way.after(input).action is Finish <==> way.after(input).next.phase == TargetPhase::Finished,
        ({
            let outcome = quiescence_after(target, phase, waited, settled, now, roster);
            outcome.action is Finish <==> outcome.next == QuiescencePhase::Finished
        }),
        ({
            let outcome = relay.waited(waited, roster, dials_pending);
            outcome.action is Finish <==> outcome.next.phase is Finished
        }),
        ({
            let outcome = relay.drained(roster, dials_pending);
            outcome.action is Finish <==> outcome.next.phase is Finished
        }),
{
}

} // verus!
