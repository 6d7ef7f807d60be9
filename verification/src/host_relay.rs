//! How a host gets onto a relay: reserving a slot, learning the access policy,
//! advertising a locator, and reclaiming it when the relay was lost.

use crate::backoff::{relay_backoff, RelayBackoff};
use crate::connecting::Waited;
use crate::failure::IoFailure;
use crate::host::{interruption, retryable_relay_error, HostError, HostStage, RelayAccessMode};
use crate::network::{
    EndpointDriver, EndpointError, PeerId, ReservationListenerId,
};
use crate::protocol::{Locator, ReclaimResponse, RelayProtocolError};
use vstd::prelude::*;

verus! {

// ---------------------------------------------------------------------------
// The access policy
// ---------------------------------------------------------------------------

/// What comes of the wait for the access policy of a relay that has `roster` for its
/// connections.
pub open spec fn access_after(
    roster: Seq<crate::network::ConnectionId>,
    waited: Option<Waited>,
    known: Option<RelayAccessMode>,
) -> Option<Result<RelayAccessMode, HostError>> {
    match waited {
        Some(Waited::Expired) => Some(
            Err::<RelayAccessMode, HostError>(HostError::RelayAccessUnavailable),
        ),
        Some(Waited::Event(_)) if roster.len() == 0 => Some(
            Err(HostError::RelayAccessUnavailable),
        ),
        _ => match known {
            Some(mode) => Some(Ok(mode)),
            None => None,
        },
    }
}

/// What comes of the wait for a relay's access policy, at its start (`waited` is
/// missing) or after a wait: the policy once it is known, a failure once the
/// relay has no connection left or the deadline passed; nothing while the wait
/// goes on.
pub fn wait_for_relay_access(
    driver: &EndpointDriver,
    relay: PeerId,
    waited: Option<Waited>,
    known: Option<RelayAccessMode>,
) -> (access: Option<Result<RelayAccessMode, HostError>>)
    ensures
        access == access_after(driver.connections.of(relay), waited, known),
{
    match waited {
        Some(Waited::Expired) => {
            return Some(Err(HostError::RelayAccessUnavailable));
        },
        Some(Waited::Event(_)) => {
            if driver.connection_count(relay) == 0 {
                return Some(Err(HostError::RelayAccessUnavailable));
            }
        },
        None => {},
    }
    match known {
        Some(mode) => Some(Ok(mode)),
        None => None,
    }
}

// ---------------------------------------------------------------------------
// Getting onto a relay
// ---------------------------------------------------------------------------

/// What a new advertisement follows.
#[derive(Debug, Clone, Copy, PartialEq, Eq, Structural)]
pub enum AdvertisementNotice {
    Initial,
    /// An earlier code, which is no longer valid.
    Replacement,
}

/// Why a host wants a relay.
#[derive(Debug, Clone, Copy, PartialEq, Eq, Structural)]
pub enum SetupMode {
    /// To advertise itself for the first time.
    Initial,
    /// To be reachable again under the access policy that it began with.
    Recovery(RelayAccessMode),
}

/// What the setup waits for.
#[derive(Debug, Clone, Copy, PartialEq, Eq, Structural)]
pub enum SetupPhase {
    Connecting,
    /// A listener for the reservation.
    Reserving,
    AwaitingReservation(ReservationListenerId),
    /// The delay before the next attempt.
    Pausing,
    /// The relay's access policy.
    Discovering(ReservationListenerId),
    Reclaiming { listener: ReservationListenerId, access: RelayAccessMode },
    Allocating { listener: ReservationListenerId, access: RelayAccessMode },
    Finished,
}

/// What happened to the setup.
#[derive(Debug, Clone, Copy, PartialEq, Eq)]
pub enum SetupEvent {
    Connected(Result<(), EndpointError>),
    Reserved(Result<ReservationListenerId, EndpointError>),
    Reservation(Result<(), EndpointError>),
    Paused,
    Access(Result<RelayAccessMode, HostError>),
    Reclaimed(Result<ReclaimResponse, RelayProtocolError>),
    Allocated(Result<(), HostError>),
    /// A shutdown signal, or a failure to wait for one.
    Signal(Result<(), IoFailure>),
}

/// The relay that the host got onto.
#[derive(Debug, Clone, Copy, PartialEq, Eq, Structural)]
pub struct SetupOutcome {
    pub listener: ReservationListenerId,
    pub access: RelayAccessMode,
    /// Whether a new locator and code were advertised.
    pub advertised: bool,
}

/// What the setup wants done.
#[derive(Debug, Clone, Copy, PartialEq, Eq)]
pub enum SetupAction {
    Connect,
    Reserve,
    AwaitReservation(ReservationListenerId),
    /// Wait for so many nanoseconds.
    Pause(u64),
    DiscoverAccess,
    Reclaim,
    Allocate(AdvertisementNotice),
    Finish(Result<SetupOutcome, HostError>),
}

/// What follows an event: the reservation to give up first, the milestone that
/// the action runs under, and the action.
#[derive(Debug, Clone, Copy, PartialEq, Eq)]
pub struct SetupStep {
    pub remove: Option<ReservationListenerId>,
    pub stage: Option<HostStage>,
    pub action: SetupAction,
}

/// The event is one that can happen in the phase. A policy is waited for, and a
/// listener made, without regard to signals.
pub open spec fn setup_awaits(phase: SetupPhase, event: SetupEvent) -> bool {
    match phase {
        SetupPhase::Connecting => event is Connected || event is Signal,
        SetupPhase::Reserving => event is Reserved,
        SetupPhase::AwaitingReservation(_) => event is Reservation || event is Signal,
        SetupPhase::Pausing => event is Paused || event is Signal,
        SetupPhase::Discovering(_) => event is Access,
        SetupPhase::Reclaiming { .. } => event is Reclaimed || event is Signal,
        SetupPhase::Allocating { .. } => event is Allocated || event is Signal,
        SetupPhase::Finished => false,
    }
}

/// The reservation that the setup holds.
pub open spec fn held(phase: SetupPhase) -> Option<ReservationListenerId> {
    match phase {
        SetupPhase::AwaitingReservation(listener) => Some(listener),
        SetupPhase::Discovering(listener) => Some(listener),
        SetupPhase::Reclaiming { listener, .. } => Some(listener),
        SetupPhase::Allocating { listener, .. } => Some(listener),
        _ => None,
    }
}

/// The milestone of a setup.
pub open spec fn setup_stage(mode: SetupMode) -> HostStage {
    match mode {
        SetupMode::Initial => HostStage::ConnectingRelay,
        SetupMode::Recovery(_) => HostStage::ReconnectingRelay,
    }
}

/// Tries again after the delay, without the reservation that was held.
pub open spec fn setup_retry(mode: SetupMode, phase: SetupPhase, delay: u64) -> (
    SetupPhase,
    SetupStep,
) {
    (
        SetupPhase::Pausing,
        SetupStep {
            remove: held(phase),
            stage: Some(setup_stage(mode)),
            action: SetupAction::Pause(delay),
        },
    )
}

/// Gives up, and the reservation that was held with it.
pub open spec fn setup_fail(phase: SetupPhase, error: HostError) -> (SetupPhase, SetupStep) {
    (
        SetupPhase::Finished,
        SetupStep {
            remove: held(phase),
            stage: None,
            action: SetupAction::Finish(Err(error)),
        },
    )
}

/// Goes on with an action.
pub open spec fn setup_go(
    phase: SetupPhase,
    stage: Option<HostStage>,
    action: SetupAction,
) -> (SetupPhase, SetupStep) {
    (phase, SetupStep { remove: None, stage, action })
}

/// What follows an event, where `delay` is that of the next attempt.
pub open spec fn setup_after(
    mode: SetupMode,
    phase: SetupPhase,
    event: SetupEvent,
    delay: u64,
) -> (SetupPhase, SetupStep) {
    match event {
        SetupEvent::Signal(Ok(_)) => setup_fail(phase, HostError::Interrupted),
        SetupEvent::Signal(Err(failure)) => setup_go(
            SetupPhase::Finished,
            None,
            SetupAction::Finish(Err(HostError::Io(failure))),
        ),
        SetupEvent::Connected(Ok(_)) => setup_go(
            SetupPhase::Reserving,
            None,
            SetupAction::Reserve,
        ),
        SetupEvent::Connected(Err(_)) => setup_retry(mode, phase, delay),
        SetupEvent::Reserved(Ok(listener)) => setup_go(
            SetupPhase::AwaitingReservation(listener),
            Some(HostStage::ReservingRelay),
            SetupAction::AwaitReservation(listener),
        ),
        SetupEvent::Reserved(Err(_)) => setup_retry(mode, phase, delay),
        SetupEvent::Reservation(Ok(_)) => setup_go(
            SetupPhase::Discovering(held(phase)->0),
            None,
            SetupAction::DiscoverAccess,
        ),
        SetupEvent::Reservation(Err(_)) => setup_retry(mode, phase, delay),
        SetupEvent::Paused => setup_go(
            SetupPhase::Connecting,
            Some(setup_stage(mode)),
            SetupAction::Connect,
        ),
        SetupEvent::Access(Err(_)) => setup_retry(mode, phase, delay),
        SetupEvent::Access(Ok(access)) => match mode {
            SetupMode::Initial => setup_go(
                SetupPhase::Allocating { listener: held(phase)->0, access },
                None,
                SetupAction::Allocate(AdvertisementNotice::Initial),
            ),
            SetupMode::Recovery(expected) => if access != expected {
                setup_fail(phase, HostError::RelayAccessChanged)
            } else {
                setup_go(
                    SetupPhase::Reclaiming { listener: held(phase)->0, access },
                    Some(HostStage::ReconnectingRelay),
                    SetupAction::Reclaim,
                )
            },
        },
        SetupEvent::Reclaimed(Ok(ReclaimResponse::Reclaimed)) => setup_go(
            SetupPhase::Finished,
            None,
            SetupAction::Finish(
                Ok(
                    SetupOutcome {
                        listener: held(phase)->0,
                        access: phase->Reclaiming_access,
                        advertised: false,
                    },
                ),
            ),
        ),
        SetupEvent::Reclaimed(Ok(ReclaimResponse::Conflict)) => setup_go(
            SetupPhase::Allocating { listener: held(phase)->0, access: phase->Reclaiming_access },
            None,
            SetupAction::Allocate(AdvertisementNotice::Replacement),
        ),
        SetupEvent::Reclaimed(Err(error)) => if crate::host::retryable(error) {
            setup_retry(mode, phase, delay)
        } else {
            setup_fail(phase, HostError::Relay(error))
        },
        SetupEvent::Allocated(Ok(_)) => setup_go(
            SetupPhase::Finished,
            None,
            SetupAction::Finish(
                Ok(
                    SetupOutcome {
                        listener: held(phase)->0,
                        access: phase->Allocating_access,
                        advertised: true,
                    },
                ),
            ),
        ),
        SetupEvent::Allocated(Err(error)) => if error is Relay && crate::host::retryable(
            error->Relay_0,
        ) {
            setup_retry(mode, phase, delay)
        } else {
            setup_fail(phase, error)
        },
    }
}

/// The delay that a step waits for; none waits for no time.
pub open spec fn pause_of(step: SetupStep) -> u64 {
    match step.action {
        SetupAction::Pause(delay) => delay,
        _ => 0,
    }
}

/// The way of a host onto a relay, retried without end under the relay backoff.
pub struct RelaySetup {
    mode: SetupMode,
    phase: SetupPhase,
    backoff: RelayBackoff,
}

impl RelaySetup {
    /// Why the host wants a relay.
    pub closed spec fn aim(self) -> SetupMode {
        self.mode
    }

    /// What the setup waits for.
    pub closed spec fn at(self) -> SetupPhase {
        self.phase
    }

    /// How many delays have been waited for.
    pub closed spec fn attempts(self) -> nat {
        self.backoff.attempts()
    }

    /// Begins with a connection to the relay. A recovery first gives up the
    /// reservation that the host had.
    pub fn new(mode: SetupMode, lost: Option<ReservationListenerId>) -> (begun: (Self, SetupStep))
        ensures
            begun.0.aim() == mode,
            begun.0.at() == SetupPhase::Connecting,
            begun.0.attempts() == 0,
            begun.1 == (SetupStep {
                remove: lost,
                stage: Some(setup_stage(mode)),
                action: SetupAction::Connect,
            }),
    {
        (
            RelaySetup { mode, phase: SetupPhase::Connecting, backoff: relay_backoff() },
            SetupStep { remove: lost, stage: Some(stage_of(mode)), action: SetupAction::Connect },
        )
    }

    /// The reservation that the setup holds.
    pub fn reservation(&self) -> (listener: Option<ReservationListenerId>)
        ensures
            listener == held(self.at()),
    {
        match self.phase {
            SetupPhase::AwaitingReservation(listener) => Some(listener),
            SetupPhase::Discovering(listener) => Some(listener),
            SetupPhase::Reclaiming { listener, .. } => Some(listener),
            SetupPhase::Allocating { listener, .. } => Some(listener),
            _ => None,
        }
    }

    fn go(&mut self, phase: SetupPhase, stage: Option<HostStage>, action: SetupAction) -> (step:
        SetupStep)
        ensures
            (final(self).at(), step) == setup_go(phase, stage, action),
            final(self).aim() == old(self).aim(),
            final(self).attempts() == old(self).attempts(),
    {
        self.phase = phase;
        SetupStep { remove: None, stage, action }
    }

    fn fail(&mut self, error: HostError) -> (step: SetupStep)
        ensures
            (final(self).at(), step) == setup_fail(old(self).at(), error),
            final(self).aim() == old(self).aim(),
            final(self).attempts() == old(self).attempts(),
    {
        let remove = self.reservation();
        self.phase = SetupPhase::Finished;
        SetupStep { remove, stage: None, action: SetupAction::Finish(Err(error)) }
    }

    fn retry(&mut self) -> (step: SetupStep)
        requires
            old(self).attempts() < usize::MAX,
        ensures
            step.action is Pause,
            (final(self).at(), step) == setup_retry(
                old(self).aim(),
                old(self).at(),
                pause_of(step),
            ),
            crate::backoff::relay_delay(old(self).attempts()) <= pause_of(step) < 2
                * crate::backoff::relay_delay(old(self).attempts()),
            final(self).aim() == old(self).aim(),
            final(self).attempts() == old(self).attempts() + 1,
    {
        let remove = self.reservation();
        let delay = self.backoff.next_delay();
        self.phase = SetupPhase::Pausing;
        let delay: u64 = match delay {
            Some(delay) => delay,
            None => 0,
        };
        SetupStep { remove, stage: Some(stage_of(self.mode)), action: SetupAction::Pause(delay) }
    }

    /// Takes an event into account and says what to do next. A pause is that of
    /// the relay backoff, with less than as much again as jitter.
    pub fn advance(&mut self, event: SetupEvent) -> (step: SetupStep)
        requires
            setup_awaits(old(self).at(), event),
            old(self).attempts() < usize::MAX,
        ensures
            (final(self).at(), step) == setup_after(
                old(self).aim(),
                old(self).at(),
                event,
                pause_of(step),
            ),
            final(self).aim() == old(self).aim(),
            step.action is Pause ==> crate::backoff::relay_delay(old(self).attempts()) <= pause_of(
                step,
            ) < 2 * crate::backoff::relay_delay(old(self).attempts()) && final(self).attempts()
                == old(self).attempts() + 1,
            !(step.action is Pause) ==> final(self).attempts() == old(self).attempts(),
    {
        match event {
            SetupEvent::Signal(Ok(())) => self.fail(interruption(Ok(()))),
            SetupEvent::Signal(Err(failure)) => self.go(
                SetupPhase::Finished,
                None,
                SetupAction::Finish(Err(interruption(Err(failure)))),
            ),
            SetupEvent::Connected(Ok(())) => self.go(
                SetupPhase::Reserving,
                None,
                SetupAction::Reserve,
            ),
            SetupEvent::Connected(Err(_)) => self.retry(),
            SetupEvent::Reserved(Ok(listener)) => self.go(
                SetupPhase::AwaitingReservation(listener),
                Some(HostStage::ReservingRelay),
                SetupAction::AwaitReservation(listener),
            ),
            SetupEvent::Reserved(Err(_)) => self.retry(),
            SetupEvent::Reservation(Err(_)) => self.retry(),
            SetupEvent::Paused => {
                let stage = stage_of(self.mode);
                self.go(SetupPhase::Connecting, Some(stage), SetupAction::Connect)
            },
            SetupEvent::Access(Err(_)) => self.retry(),
            SetupEvent::Reservation(Ok(()))
            | SetupEvent::Access(Ok(_))
            | SetupEvent::Reclaimed(_)
            | SetupEvent::Allocated(_) => self.proceed(event),
        }
    }

    /// Goes on with the reservation that is held.
    fn proceed(&mut self, event: SetupEvent) -> (step: SetupStep)
        requires
            setup_awaits(old(self).at(), event),
            old(self).attempts() < usize::MAX,
            event is Reservation && event->Reservation_0 is Ok || event is Access
                && event->Access_0 is Ok || event is Reclaimed || event is Allocated,
        ensures
            (final(self).at(), step) == setup_after(
                old(self).aim(),
                old(self).at(),
                event,
                pause_of(step),
            ),
            final(self).aim() == old(self).aim(),
            step.action is Pause ==> crate::backoff::relay_delay(old(self).attempts()) <= pause_of(
                step,
            ) < 2 * crate::backoff::relay_delay(old(self).attempts()) && final(self).attempts()
                == old(self).attempts() + 1,
            !(step.action is Pause) ==> final(self).attempts() == old(self).attempts(),
    {
        match (self.phase, event) {
            (SetupPhase::AwaitingReservation(listener), _) => self.go(
                SetupPhase::Discovering(listener),
                None,
                SetupAction::DiscoverAccess,
            ),
            (SetupPhase::Discovering(listener), SetupEvent::Access(Ok(access))) => match self.mode {
                SetupMode::Initial => self.go(
                    SetupPhase::Allocating { listener, access },
                    None,
                    SetupAction::Allocate(AdvertisementNotice::Initial),
                ),
                SetupMode::Recovery(expected) => {
                    if access != expected {
                        self.fail(HostError::RelayAccessChanged)
                    } else {
                        self.go(
                            SetupPhase::Reclaiming { listener, access },
                            Some(HostStage::ReconnectingRelay),
                            SetupAction::Reclaim,
                        )
                    }
                },
            },
            (SetupPhase::Reclaiming { listener, access }, SetupEvent::Reclaimed(result)) => {
                match result {
                    Ok(ReclaimResponse::Reclaimed) => self.go(
                        SetupPhase::Finished,
                        None,
                        SetupAction::Finish(
                            Ok(SetupOutcome { listener, access, advertised: false }),
                        ),
                    ),
                    Ok(ReclaimResponse::Conflict) => self.go(
                        SetupPhase::Allocating { listener, access },
                        None,
                        SetupAction::Allocate(AdvertisementNotice::Replacement),
                    ),
                    Err(error) => {
                        if retryable_relay_error(&error) {
                            self.retry()
                        } else {
                            self.fail(HostError::Relay(error))
                        }
                    },
                }
            },
            (SetupPhase::Allocating { listener, access }, SetupEvent::Allocated(result)) => {
                match result {
                    Ok(()) => self.go(
                        SetupPhase::Finished,
                        None,
                        SetupAction::Finish(
                            Ok(SetupOutcome { listener, access, advertised: true }),
                        ),
                    ),
                    Err(HostError::Relay(error)) => {
                        if retryable_relay_error(&error) {
                            self.retry()
                        } else {
                            self.fail(HostError::Relay(error))
                        }
                    },
                    Err(error) => self.fail(error),
                }
            },
            _ => self.fail(HostError::RelayAccessUnavailable),
        }
    }
}

fn stage_of(mode: SetupMode) -> (stage: HostStage)
    ensures
        stage == setup_stage(mode),
{
    match mode {
        SetupMode::Initial => HostStage::ConnectingRelay,
        SetupMode::Recovery(_) => HostStage::ReconnectingRelay,
    }
}

// ---------------------------------------------------------------------------
// Advertising
// ---------------------------------------------------------------------------

/// What an advertisement waits for.
#[derive(Debug, Clone, Copy, PartialEq, Eq, Structural)]
pub enum AdvertisingPhase {
    /// A locator from the relay.
    Locating,
    /// A code and its registration.
    Creating(Locator),
    /// The notice that the earlier code was replaced to be shown.
    Noticing(Locator),
    /// The code to be shown.
    Reporting(Locator),
    /// The locator to be released after a failure.
    Releasing(HostError),
    Finished,
}

/// What happened to an advertisement.
#[derive(Debug, Clone, Copy, PartialEq, Eq)]
pub enum AdvertisingEvent {
    Located(Result<Locator, RelayProtocolError>),
    Created(Result<(), HostError>),
    Noticed(Result<(), IoFailure>),
    Reported(Result<(), IoFailure>),
    Released(Result<(), RelayProtocolError>),
}

/// What an advertisement wants done.
#[derive(Debug, Clone, Copy, PartialEq, Eq)]
pub enum AdvertisingAction {
    Locate,
    Create(Locator),
    /// Clear the progress line and show the notice.
    Notice,
    /// Clear the progress line and show the code.
    Report,
    Release(Locator),
    Finish(Result<Locator, HostError>),
}

/// The event is one that can happen in the phase.
pub open spec fn advertising_awaits(phase: AdvertisingPhase, event: AdvertisingEvent) -> bool {
    match phase {
        AdvertisingPhase::Locating => event is Located,
        AdvertisingPhase::Creating(_) => event is Created,
        AdvertisingPhase::Noticing(_) => event is Noticed,
        AdvertisingPhase::Reporting(_) => event is Reported,
        AdvertisingPhase::Releasing(_) => event is Released,
        AdvertisingPhase::Finished => false,
    }
}

/// What follows an event of an advertisement. A notice that cannot be shown does
/// not matter; a code that cannot be shown is of no use, and its locator is
/// released.
pub open spec fn advertising_after(
    notice: AdvertisementNotice,
    phase: AdvertisingPhase,
    event: AdvertisingEvent,
) -> (AdvertisingPhase, AdvertisingAction) {
    match phase {
        AdvertisingPhase::Locating => match event->Located_0 {
            Ok(locator) => (
                AdvertisingPhase::Creating(locator),
                AdvertisingAction::Create(locator),
            ),
            Err(error) => (
                AdvertisingPhase::Finished,
                AdvertisingAction::Finish(Err(HostError::Relay(error))),
            ),
        },
        AdvertisingPhase::Creating(locator) => match event->Created_0 {
            Ok(_) => if notice == AdvertisementNotice::Replacement {
                (AdvertisingPhase::Noticing(locator), AdvertisingAction::Notice)
            } else {
                (AdvertisingPhase::Reporting(locator), AdvertisingAction::Report)
            },
            Err(error) => (
                AdvertisingPhase::Releasing(error),
                AdvertisingAction::Release(locator),
            ),
        },
        AdvertisingPhase::Noticing(locator) => (
            AdvertisingPhase::Reporting(locator),
            AdvertisingAction::Report,
        ),
        AdvertisingPhase::Reporting(locator) => match event->Reported_0 {
            Ok(_) => (AdvertisingPhase::Finished, AdvertisingAction::Finish(Ok(locator))),
            Err(failure) => (
                AdvertisingPhase::Releasing(HostError::Output(failure)),
                AdvertisingAction::Release(locator),
            ),
        },
        AdvertisingPhase::Releasing(error) => (
            AdvertisingPhase::Finished,
            AdvertisingAction::Finish(Err(error)),
        ),
        AdvertisingPhase::Finished => (
            AdvertisingPhase::Finished,
            AdvertisingAction::Finish(Err(HostError::ConnectionLost)),
        ),
    }
}

/// The advertisement of one locator with a fresh code.
pub struct Advertising {
    notice: AdvertisementNotice,
    phase: AdvertisingPhase,
}

impl Advertising {
    /// What the advertisement follows.
    pub closed spec fn after(self) -> AdvertisementNotice {
        self.notice
    }

    /// What the advertisement waits for.
    pub closed spec fn at(self) -> AdvertisingPhase {
        self.phase
    }

    /// Begins with a locator from the relay.
    pub fn new(notice: AdvertisementNotice) -> (begun: (Self, AdvertisingAction))
        ensures
            begun.0.after() == notice,
            begun.0.at() == AdvertisingPhase::Locating,
            begun.1 == AdvertisingAction::Locate,
    {
        (Advertising { notice, phase: AdvertisingPhase::Locating }, AdvertisingAction::Locate)
    }

    /// Takes an event into account and says what to do next.
    pub fn advance(&mut self, event: AdvertisingEvent) -> (action: AdvertisingAction)
        requires
            advertising_awaits(old(self).at(), event),
        ensures
            (final(self).at(), action) == advertising_after(
                old(self).after(),
                old(self).at(),
                event,
            ),
            final(self).after() == old(self).after(),
    {
        let (phase, action) = match (self.phase, event) {
            (AdvertisingPhase::Locating, AdvertisingEvent::Located(Ok(locator))) => (
                AdvertisingPhase::Creating(locator),
                AdvertisingAction::Create(locator),
            ),
            (AdvertisingPhase::Locating, AdvertisingEvent::Located(Err(error))) => (
                AdvertisingPhase::Finished,
                AdvertisingAction::Finish(Err(HostError::Relay(error))),
            ),
            (AdvertisingPhase::Creating(locator), AdvertisingEvent::Created(Ok(()))) => {
                if self.notice == AdvertisementNotice::Replacement {
                    (AdvertisingPhase::Noticing(locator), AdvertisingAction::Notice)
                } else {
                    (AdvertisingPhase::Reporting(locator), AdvertisingAction::Report)
                }
            },
            (AdvertisingPhase::Creating(locator), AdvertisingEvent::Created(Err(error))) => (
                AdvertisingPhase::Releasing(error),
                AdvertisingAction::Release(locator),
            ),
            (AdvertisingPhase::Noticing(locator), _) => (
                AdvertisingPhase::Reporting(locator),
                AdvertisingAction::Report,
            ),
            (AdvertisingPhase::Reporting(locator), AdvertisingEvent::Reported(Ok(()))) => (
                AdvertisingPhase::Finished,
                AdvertisingAction::Finish(Ok(locator)),
            ),
            (AdvertisingPhase::Reporting(locator), AdvertisingEvent::Reported(Err(failure))) => (
                AdvertisingPhase::Releasing(HostError::Output(failure)),
                AdvertisingAction::Release(locator),
            ),
            (AdvertisingPhase::Releasing(error), _) => (
                AdvertisingPhase::Finished,
                AdvertisingAction::Finish(Err(error)),
            ),
            _ => (
                AdvertisingPhase::Finished,
                AdvertisingAction::Finish(Err(HostError::ConnectionLost)),
            ),
        };
        self.phase = phase;
        action
    }
}

// ---------------------------------------------------------------------------
// The whole of a host's life
// ---------------------------------------------------------------------------

/// What a host's life waits for.
#[derive(Debug, Clone, Copy, PartialEq, Eq)]
pub enum LifePhase {
    /// The endpoint to be built and its protocols registered.
    Building,
    /// A relay.
    Initializing,
    /// The session to end.
    Running,
    /// The locator to be released.
    Releasing(Result<u32, HostError>),
    Finished,
}

/// What happened to a host.
#[derive(Debug, Clone, Copy, PartialEq, Eq)]
pub enum LifeEvent {
    Built(Result<(), HostError>),
    Initialized(Result<(), HostError>),
    Ended(Result<u32, HostError>),
    Released(Result<(), RelayProtocolError>),
}

/// What a host's life wants done.
#[derive(Debug, Clone, Copy, PartialEq, Eq)]
pub enum LifeAction {
    Initialize,
    Run,
    /// Release the locator that is advertised at the end.
    Release,
    /// Give up the reservation that is held at the end, if a session ran.
    Finish { remove: bool, result: Result<u32, HostError> },
}

/// The event is one that can happen in the phase.
pub open spec fn life_awaits(phase: LifePhase, event: LifeEvent) -> bool {
    match phase {
        LifePhase::Building => event is Built,
        LifePhase::Initializing => event is Initialized,
        LifePhase::Running => event is Ended,
        LifePhase::Releasing(_) => event is Released,
        LifePhase::Finished => false,
    }
}

/// What follows an event of a host's life: whatever a session ended with is what
/// the host ends with, after its locator was released and its reservation given
/// up, and whether or not the release was acknowledged.
pub open spec fn life_after(phase: LifePhase, event: LifeEvent) -> (LifePhase, LifeAction) {
    match event {
        LifeEvent::Built(Ok(_)) => (LifePhase::Initializing, LifeAction::Initialize),
        LifeEvent::Built(Err(error)) => (
            LifePhase::Finished,
            LifeAction::Finish { remove: false, result: Err(error) },
        ),
        LifeEvent::Initialized(Ok(_)) => (LifePhase::Running, LifeAction::Run),
        LifeEvent::Initialized(Err(error)) => (
            LifePhase::Finished,
            LifeAction::Finish { remove: false, result: Err(error) },
        ),
        LifeEvent::Ended(result) => (LifePhase::Releasing(result), LifeAction::Release),
        LifeEvent::Released(_) => (
            LifePhase::Finished,
            LifeAction::Finish { remove: true, result: phase->Releasing_0 },
        ),
    }
}

/// One step of a host's life: whatever a session ended with is what
/// the host ends with, after its locator was released and its reservation given
/// up, and whether or not the release was acknowledged.
pub fn run_host_session(phase: LifePhase, event: LifeEvent) -> (next: (LifePhase, LifeAction))
    requires
        life_awaits(phase, event),
    ensures
        next == life_after(phase, event),
{
    match event {
        LifeEvent::Built(Ok(())) => (LifePhase::Initializing, LifeAction::Initialize),
        LifeEvent::Built(Err(error)) => (
            LifePhase::Finished,
            LifeAction::Finish { remove: false, result: Err(error) },
        ),
        LifeEvent::Initialized(Ok(())) => (LifePhase::Running, LifeAction::Run),
        LifeEvent::Initialized(Err(error)) => (
            LifePhase::Finished,
            LifeAction::Finish { remove: false, result: Err(error) },
        ),
        LifeEvent::Ended(result) => (LifePhase::Releasing(result), LifeAction::Release),
        LifeEvent::Released(_) => {
            let result = match phase {
                LifePhase::Releasing(result) => result,
                _ => Err(HostError::ConnectionLost),
            };
            (LifePhase::Finished, LifeAction::Finish { remove: true, result })
        },
    }
}

// ---------------------------------------------------------------------------
// Laws
// ---------------------------------------------------------------------------

/// A reservation that the setup holds is kept, handed out with its success, or
/// given up; the one exception is a failure to wait for the shutdown signal,
/// which ends the host.
pub proof fn law_no_reservation_is_forgotten(
    mode: SetupMode,
    phase: SetupPhase,
    event: SetupEvent,
    delay: u64,
)
    requires
        setup_awaits(phase, event),
        held(phase) is Some,
        !(event is Signal && event->Signal_0 is Err),
    ensures
        ({
            let (next, step) = setup_after(mode, phase, event, delay);
            ||| held(next) == held(phase) && step.remove is None
            ||| held(next) is None && step.remove == held(phase)
            ||| held(next) is None && step.remove is None && step.action is Finish
                && step.action->Finish_0 is Ok && Some(step.action->Finish_0->Ok_0.listener)
                == held(phase)
        }),
{
}

/// A recovered host keeps its locator and code exactly when the relay let it
/// reclaim the locator.
pub proof fn law_a_code_is_replaced_only_on_conflict(
    access: RelayAccessMode,
    phase: SetupPhase,
    event: SetupEvent,
    delay: u64,
)
    requires
        setup_awaits(phase, event),
    ensures
        ({
            let (next, step) = setup_after(SetupMode::Recovery(access), phase, event, delay);
            &&& step.action is Allocate <==> event is Reclaimed && event->Reclaimed_0 is Ok
                && event->Reclaimed_0->Ok_0 == ReclaimResponse::Conflict
            &&& step.action is Finish && step.action->Finish_0 is Ok
                && !step.action->Finish_0->Ok_0.advertised <==> event is Reclaimed
                && event->Reclaimed_0 is Ok && event->Reclaimed_0->Ok_0
                == ReclaimResponse::Reclaimed
        }),
{
}

/// A recovery never goes on with a relay whose access policy differs from the one
/// that the host began with.
pub proof fn law_a_changed_policy_ends_the_recovery(
    expected: RelayAccessMode,
    listener: ReservationListenerId,
    access: RelayAccessMode,
    delay: u64,
)
    requires
        access != expected,
    ensures
        setup_after(
            SetupMode::Recovery(expected),
            SetupPhase::Discovering(listener),
            SetupEvent::Access(Ok(access)),
            delay,
        ) == setup_fail(SetupPhase::Discovering(listener), HostError::RelayAccessChanged),
{
}

/// A locator that was allocated is either advertised or released: a failure ends
/// the advertisement only after the locator was released.
pub proof fn law_a_failed_advertisement_is_released(
    notice: AdvertisementNotice,
    phase: AdvertisingPhase,
    event: AdvertisingEvent,
)
    requires
        advertising_awaits(phase, event),
    ensures
        ({
            let (next, action) = advertising_after(notice, phase, event);
            &&& action is Finish && action->Finish_0 is Err ==> phase is Releasing || phase
                is Locating
            &&& next is Releasing <==> action is Release
            &&& action is Finish && action->Finish_0 is Ok ==> phase == AdvertisingPhase::Reporting(
                action->Finish_0->Ok_0,
            )
        }),
{
}

/// The policy of a relay is taken as soon as it is known, unless the deadline passed or
/// an event left the relay without a connection; until then the wait goes on.
pub proof fn law_a_known_policy_is_taken(
    roster: Seq<crate::network::ConnectionId>,
    waited: Option<Waited>,
    known: Option<RelayAccessMode>,
    mode: RelayAccessMode,
)
    ensures
        access_after(roster, waited, known) == Some(
            Err::<RelayAccessMode, HostError>(HostError::RelayAccessUnavailable),
        ) <==> waited == Some(Waited::Expired) || (waited is Some && roster.len() == 0),
        access_after(roster, waited, known) == Some(Ok::<RelayAccessMode, HostError>(mode)) <==> (
        known == Some(mode) && waited != Some(Waited::Expired) && (waited is None || roster.len()
            > 0)),
        access_after(roster, waited, known) is None <==> known is None && waited != Some(
            Waited::Expired,
        ) && (waited is None || roster.len() > 0),
{
}

/// A host that gets onto a relay connects, reserves and learns the policy, with one and
/// the same reservation throughout. The first time it then allocates a locator; a
/// recovery reclaims its own, which ends it, and takes a new one only on a conflict.
pub proof fn law_a_host_gets_onto_a_relay(
    mode: SetupMode,
    listener: ReservationListenerId,
    access: RelayAccessMode,
    delay: u64,
)
    ensures
        ({
            let after = |phase: SetupPhase, event: SetupEvent| setup_after(mode, phase, event, delay);
            let stage = if mode == SetupMode::Initial {
                HostStage::ConnectingRelay
            } else {
                HostStage::ReconnectingRelay
            };
            &&& after(SetupPhase::Connecting, SetupEvent::Connected(Ok(()))) == (
                SetupPhase::Reserving,
                SetupStep { remove: None, stage: None, action: SetupAction::Reserve },
            )
            &&& after(SetupPhase::Reserving, SetupEvent::Reserved(Ok(listener))) == (
                SetupPhase::AwaitingReservation(listener),
                SetupStep {
                    remove: None,
                    stage: Some(HostStage::ReservingRelay),
                    action: SetupAction::AwaitReservation(listener),
                },
            )
            &&& after(
                SetupPhase::AwaitingReservation(listener),
                SetupEvent::Reservation(Ok(())),
            ) == (
                SetupPhase::Discovering(listener),
                SetupStep { remove: None, stage: None, action: SetupAction::DiscoverAccess },
            )
            &&& after(SetupPhase::Pausing, SetupEvent::Paused) == (
                SetupPhase::Connecting,
                SetupStep { remove: None, stage: Some(stage), action: SetupAction::Connect },
            )
            &&& mode == SetupMode::Initial ==> after(
                SetupPhase::Discovering(listener),
                SetupEvent::Access(Ok(access)),
            ) == (
                SetupPhase::Allocating { listener, access },
                SetupStep {
                    remove: None,
                    stage: None,
                    action: SetupAction::Allocate(AdvertisementNotice::Initial),
                },
            )
            &&& mode == SetupMode::Recovery(access) ==> after(
                SetupPhase::Discovering(listener),
                SetupEvent::Access(Ok(access)),
            ) == (
                SetupPhase::Reclaiming { listener, access },
                SetupStep {
                    remove: None,
                    stage: Some(HostStage::ReconnectingRelay),
                    action: SetupAction::Reclaim,
                },
            )
            &&& after(
                (SetupPhase::Reclaiming { listener, access }),
                SetupEvent::Reclaimed(Ok(ReclaimResponse::Reclaimed)),
            ) == (
                SetupPhase::Finished,
                SetupStep {
                    remove: None,
                    stage: None,
                    action: SetupAction::Finish(
                        Ok(SetupOutcome { listener, access, advertised: false }),
                    ),
                },
            )
            &&& after(
                (SetupPhase::Reclaiming { listener, access }),
                SetupEvent::Reclaimed(Ok(ReclaimResponse::Conflict)),
            ) == (
                SetupPhase::Allocating { listener, access },
                SetupStep {
                    remove: None,
                    stage: None,
                    action: SetupAction::Allocate(AdvertisementNotice::Replacement),
                },
            )
            &&& after(
                (SetupPhase::Allocating { listener, access }),
                SetupEvent::Allocated(Ok(())),
            ) == (
                SetupPhase::Finished,
                SetupStep {
                    remove: None,
                    stage: None,
                    action: SetupAction::Finish(
                        Ok(SetupOutcome { listener, access, advertised: true }),
                    ),
                },
            )
        }),
{
}

/// A setup is tried again, after the delay and without its reservation, for whatever a
/// reconnect may mend: a connection, a reservation or a policy that did not come, and the
/// relay's passing failures. What the relay refuses for good ends it.
pub proof fn law_a_setup_is_tried_again(
    mode: SetupMode,
    listener: ReservationListenerId,
    access: RelayAccessMode,
    delay: u64,
    endpoint: EndpointError,
    error: HostError,
    relay: RelayProtocolError,
)
    ensures
        ({
            let after = |phase: SetupPhase, event: SetupEvent| setup_after(mode, phase, event, delay);
            let stage = if mode == SetupMode::Initial {
                HostStage::ConnectingRelay
            } else {
                HostStage::ReconnectingRelay
            };
            let again = |remove: Option<ReservationListenerId>|
                (
                    SetupPhase::Pausing,
                    SetupStep { remove, stage: Some(stage), action: SetupAction::Pause(delay) },
                );
            let never = |error: HostError|
                (
                    SetupPhase::Finished,
                    SetupStep {
                        remove: Some(listener),
                        stage: None,
                        action: SetupAction::Finish(Err(error)),
                    },
                );
            let passing = relay is Endpoint || relay is Timeout || relay is Io || relay is Capacity
                || relay is ReservationRequired || relay is RetryExhausted;
            let reclaiming = SetupPhase::Reclaiming { listener, access };
            let allocating = SetupPhase::Allocating { listener, access };
            &&& after(SetupPhase::Connecting, SetupEvent::Connected(Err(endpoint))) == again(None)
            &&& after(SetupPhase::Reserving, SetupEvent::Reserved(Err(endpoint))) == again(None)
            &&& after(
                SetupPhase::AwaitingReservation(listener),
                SetupEvent::Reservation(Err(endpoint)),
            ) == again(Some(listener))
            &&& after(SetupPhase::Discovering(listener), SetupEvent::Access(Err(error))) == again(
                Some(listener),
            )
            &&& passing ==> {
                &&& after(reclaiming, SetupEvent::Reclaimed(Err(relay))) == again(Some(listener))
                &&& after(allocating, SetupEvent::Allocated(Err(HostError::Relay(relay)))) == again(
                    Some(listener),
                )
            }
            &&& !passing ==> {
                &&& after(reclaiming, SetupEvent::Reclaimed(Err(relay))) == never(
                    HostError::Relay(relay),
                )
                &&& after(allocating, SetupEvent::Allocated(Err(HostError::Relay(relay)))) == never(
                    HostError::Relay(relay),
                )
            }
            &&& !(error is Relay) ==> after(allocating, SetupEvent::Allocated(Err(error))) == never(
                error,
            )
        }),
{
}

/// A signal ends the setup as interrupted and gives up its reservation; a failure to wait
/// for one ends it too.
pub proof fn law_a_signal_ends_the_setup(
    mode: SetupMode,
    phase: SetupPhase,
    delay: u64,
    failure: IoFailure,
)
    ensures
        ({
            let (next, step) = setup_after(mode, phase, SetupEvent::Signal(Ok(())), delay);
            &&& next == SetupPhase::Finished
            &&& step.action == SetupAction::Finish(Err(HostError::Interrupted))
            &&& step.remove == match phase {
                SetupPhase::AwaitingReservation(listener) => Some(listener),
                SetupPhase::Discovering(listener) => Some(listener),
                SetupPhase::Reclaiming { listener, .. } => Some(listener),
                SetupPhase::Allocating { listener, .. } => Some(listener),
                _ => None,
            }
        }),
        setup_after(mode, phase, SetupEvent::Signal(Err(failure)), delay).1.action
            == SetupAction::Finish(Err(HostError::Io(failure))),
{
}

/// An advertisement creates a code for the very locator that the relay gave, shows the
/// notice first where it replaces one, shows the code, and ends with the locator. A notice
/// that cannot be shown does not matter.
pub proof fn law_a_code_is_advertised(
    locator: Locator,
    notice: AdvertisementNotice,
    noticed: Result<(), IoFailure>,
)
    ensures
        advertising_after(
            notice,
            AdvertisingPhase::Locating,
            AdvertisingEvent::Located(Ok(locator)),
        ) == (AdvertisingPhase::Creating(locator), AdvertisingAction::Create(locator)),
        advertising_after(
            AdvertisementNotice::Initial,
            AdvertisingPhase::Creating(locator),
            AdvertisingEvent::Created(Ok(())),
        ) == (AdvertisingPhase::Reporting(locator), AdvertisingAction::Report),
        advertising_after(
            AdvertisementNotice::Replacement,
            AdvertisingPhase::Creating(locator),
            AdvertisingEvent::Created(Ok(())),
        ) == (AdvertisingPhase::Noticing(locator), AdvertisingAction::Notice),
        advertising_after(
            notice,
            AdvertisingPhase::Noticing(locator),
            AdvertisingEvent::Noticed(noticed),
        ) == (AdvertisingPhase::Reporting(locator), AdvertisingAction::Report),
        advertising_after(
            notice,
            AdvertisingPhase::Reporting(locator),
            AdvertisingEvent::Reported(Ok(())),
        ) == (AdvertisingPhase::Finished, AdvertisingAction::Finish(Ok(locator))),
{
}

/// An advertisement that fails after it got a locator releases that locator, and then
/// ends with what failed, whether or not the release was acknowledged.
pub proof fn law_a_failed_advertisement_says_why(
    notice: AdvertisementNotice,
    locator: Locator,
    relay: RelayProtocolError,
    error: HostError,
    failure: IoFailure,
    released: Result<(), RelayProtocolError>,
)
    ensures
        advertising_after(
            notice,
            AdvertisingPhase::Locating,
            AdvertisingEvent::Located(Err(relay)),
        ) == (
            AdvertisingPhase::Finished,
            AdvertisingAction::Finish(Err(HostError::Relay(relay))),
        ),
        advertising_after(
            notice,
            AdvertisingPhase::Creating(locator),
            AdvertisingEvent::Created(Err(error)),
        ) == (AdvertisingPhase::Releasing(error), AdvertisingAction::Release(locator)),
        advertising_after(
            notice,
            AdvertisingPhase::Reporting(locator),
            AdvertisingEvent::Reported(Err(failure)),
        ) == (
            AdvertisingPhase::Releasing(HostError::Output(failure)),
            AdvertisingAction::Release(locator),
        ),
        advertising_after(
            notice,
            AdvertisingPhase::Releasing(error),
            AdvertisingEvent::Released(released),
        ) == (AdvertisingPhase::Finished, AdvertisingAction::Finish(Err(error))),
{
}

/// A host's life runs its session once it is built and on a relay, and ends with what the
/// session ended with, once its locator was released; a life that never got so far ends
/// with its own failure, and has nothing to give up.
pub proof fn law_a_life_ends_as_its_session_did(
    result: Result<u32, HostError>,
    released: Result<(), RelayProtocolError>,
    error: HostError,
)
    ensures
        life_after(LifePhase::Building, LifeEvent::Built(Ok(()))) == (
            LifePhase::Initializing,
            LifeAction::Initialize,
        ),
        life_after(LifePhase::Initializing, LifeEvent::Initialized(Ok(()))) == (
            LifePhase::Running,
            LifeAction::Run,
        ),
        life_after(LifePhase::Running, LifeEvent::Ended(result)) == (
            LifePhase::Releasing(result),
            LifeAction::Release,
        ),
        life_after(LifePhase::Releasing(result), LifeEvent::Released(released)) == (
            LifePhase::Finished,
            LifeAction::Finish { remove: true, result },
        ),
        life_after(LifePhase::Building, LifeEvent::Built(Err(error))) == (
            LifePhase::Finished,
            LifeAction::Finish { remove: false, result: Err(error) },
        ),
        life_after(LifePhase::Initializing, LifeEvent::Initialized(Err(error))) == (
            LifePhase::Finished,
            LifeAction::Finish { remove: false, result: Err(error) },
        ),
{
}

} // verus!
