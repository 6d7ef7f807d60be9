//! The bounded exchanges with the relay: allocating, reclaiming and releasing
//! a locator, and resolving one to a peer, with or without enterprise
//! authentication.

use crate::backoff::RetryBudget;
use crate::failure::{Cause, IoFailure, ProtocolError, ProtocolField};
use crate::network::{
    ApplicationStreamError, EndpointError, PeerId, MILLISECOND, SECOND,
};
use vstd::prelude::*;

pub use crate::backoff::RETRY_LIMIT;

verus! {

/// Bound of one exchange with the relay.
pub const PROTOCOL_TIMEOUT: u64 = 10 * SECOND;

/// Bound of the whole discovery of a target by the controller.
pub const CONTROLLER_RESOLVE_TIMEOUT: u64 = 30 * SECOND;

/// The public locator of an advertised host.
#[derive(Debug, Clone, Copy, PartialEq, Eq, Structural)]
pub struct Locator(pub u32);

/// How long the relay asks to wait, in milliseconds.
#[derive(Debug, Clone, Copy, PartialEq, Eq, Structural)]
pub struct RetryAfter(pub u32);

impl RetryAfter {
    pub fn millis(self) -> (millis: u32)
        ensures
            millis == self.0,
    {
        self.0
    }
}

/// The absolute controller discovery budget, shared across every relay retry.
#[derive(Debug, Clone, Copy, PartialEq, Eq, Structural)]
pub struct ResolveDeadline(pub u64);

impl ResolveDeadline {
    /// The budget of a discovery that begins now.
    #[must_use]
    pub fn controller(now: u64) -> (deadline: Self)
        requires
            now + CONTROLLER_RESOLVE_TIMEOUT <= u64::MAX,
        ensures
            deadline.0 == now + CONTROLLER_RESOLVE_TIMEOUT,
    {
        ResolveDeadline(now + CONTROLLER_RESOLVE_TIMEOUT)
    }
}

/// Failures from a bounded relay registry or resolve exchange.
#[derive(Debug, Clone, Copy, PartialEq, Eq, Structural)]
pub enum RelayProtocolError {
    Endpoint(EndpointError),
    Timeout,
    Io(IoFailure),
    Protocol(ProtocolError),
    Capacity,
    ReservationRequired,
    Conflict,
    LocatorMismatch,
    Unavailable,
    InvalidPeerId,
    RetryExhausted,
    UnexpectedResponse,
    EnterpriseRejected,
    EnterpriseExpired,
}

impl RelayProtocolError {
    /// The text of the message.
    pub open spec fn text(self) -> Seq<char> {
        match self {
            RelayProtocolError::Endpoint(error) => error.text(),
            RelayProtocolError::Timeout => "the relay protocol exchange timed out"@,
            RelayProtocolError::Io(_) => "relay protocol I/O failed"@,
            RelayProtocolError::Protocol(_) => {
                "the relay returned an invalid protocol message"@
            },
            RelayProtocolError::Capacity => "the relay registration is at capacity"@,
            RelayProtocolError::ReservationRequired => {
                "the relay requires an active reservation"@
            },
            RelayProtocolError::Conflict => {
                "the requested locator conflicts with another endpoint"@
            },
            RelayProtocolError::LocatorMismatch => {
                "the relay acknowledged a different locator than the one requested"@
            },
            RelayProtocolError::Unavailable => "the target is not currently available"@,
            RelayProtocolError::InvalidPeerId => {
                "the relay response contained an invalid PeerId"@
            },
            RelayProtocolError::RetryExhausted => {
                "the bounded relay retry budget was exhausted"@
            },
            RelayProtocolError::UnexpectedResponse => {
                "the relay returned a response that is invalid for this request"@
            },
            RelayProtocolError::EnterpriseRejected => {
                "enterprise authentication was not completed"@
            },
            RelayProtocolError::EnterpriseExpired => "enterprise authentication expired"@,
        }
    }

    /// What follows the text of the message.
    pub open spec fn origin(self) -> Option<Cause> {
        match self {
            RelayProtocolError::Endpoint(error) => error.origin(),
            _ => None,
        }
    }

    /// What follows the message.
    pub fn cause(&self) -> (cause: Option<Cause>)
        ensures
            cause == self.origin(),
    {
        match self {
            RelayProtocolError::Endpoint(error) => error.cause(),
            _ => None,
        }
    }

    /// The message shown for the failure.
    pub fn message(&self) -> (text: String)
        ensures
            text@ == self.text(),
    {
        let text = match self {
            RelayProtocolError::Endpoint(error) => {
                return error.message();
            },
            RelayProtocolError::Timeout => "the relay protocol exchange timed out",
            RelayProtocolError::Io(_) => "relay protocol I/O failed",
            RelayProtocolError::Protocol(_) => "the relay returned an invalid protocol message",
            RelayProtocolError::Capacity => "the relay registration is at capacity",
            RelayProtocolError::ReservationRequired => "the relay requires an active reservation",
            RelayProtocolError::Conflict => {
                "the requested locator conflicts with another endpoint"
            },
            RelayProtocolError::LocatorMismatch => {
                "the relay acknowledged a different locator than the one requested"
            },
            RelayProtocolError::Unavailable => "the target is not currently available",
            RelayProtocolError::InvalidPeerId => "the relay response contained an invalid PeerId",
            RelayProtocolError::RetryExhausted => "the bounded relay retry budget was exhausted",
            RelayProtocolError::UnexpectedResponse => {
                "the relay returned a response that is invalid for this request"
            },
            RelayProtocolError::EnterpriseRejected => {
                "enterprise authentication was not completed"
            },
            RelayProtocolError::EnterpriseExpired => "enterprise authentication expired",
        };
        text.to_owned()
    }
}

// ---------------------------------------------------------------------------
// Responses
// ---------------------------------------------------------------------------

/// A request to the relay registry.
#[derive(Debug, Clone, Copy, PartialEq, Eq, Structural)]
pub enum RegistryRequest {
    Allocate,
    Reclaim(Locator),
    Release(Locator),
}

/// An answer of the relay registry.
#[derive(Debug, Clone, Copy, PartialEq, Eq, Structural)]
pub enum RegistryResponse {
    Acquired(Locator),
    Retry(RetryAfter),
    Capacity,
    ReservationRequired,
    Conflict,
    Released,
}

/// An answer to a resolve request. The peer is missing when the bytes that
/// stand for it are no peer identity.
#[derive(Debug, Clone, Copy, PartialEq, Eq, Structural)]
pub enum ResolveResponse {
    Resolved(Option<PeerId>),
    Retry(RetryAfter),
    Unavailable,
}

/// The only two terminal outcomes of a valid Reclaim exchange.
#[derive(Debug, Clone, Copy, PartialEq, Eq, Structural)]
pub enum ReclaimResponse {
    Reclaimed,
    Conflict,
}

/// What an answer to a reclaim means.
#[derive(Debug, Clone, Copy, PartialEq, Eq, Structural)]
pub enum ReclaimStep {
    Reclaimed,
    Conflict,
    Retry(RetryAfter),
}

/// What an answer to an allocation means.
#[derive(Debug, Clone, Copy, PartialEq, Eq, Structural)]
pub enum AllocationResponse {
    Acquired(Locator),
    Retry(RetryAfter),
}

/// What an answer to a resolve request means.
#[derive(Debug, Clone, Copy, PartialEq, Eq, Structural)]
pub enum ResolvedResponse {
    Resolved(PeerId),
    Retry(RetryAfter),
}

/// What an answer to the reclaim of `requested` means.
pub open spec fn reclaim_meaning(
    response: RegistryResponse,
    requested: Locator,
) -> Result<ReclaimStep, RelayProtocolError> {
    match response {
        RegistryResponse::Acquired(locator) => if locator == requested {
            Ok(ReclaimStep::Reclaimed)
        } else {
            Err(RelayProtocolError::LocatorMismatch)
        },
        RegistryResponse::Conflict => Ok(ReclaimStep::Conflict),
        RegistryResponse::Retry(after) => Ok(ReclaimStep::Retry(after)),
        RegistryResponse::Capacity => Err(RelayProtocolError::Capacity),
        RegistryResponse::ReservationRequired => Err(RelayProtocolError::ReservationRequired),
        RegistryResponse::Released => Err(RelayProtocolError::UnexpectedResponse),
    }
}

/// Classifies an answer to the reclaim of `requested`.
pub fn reclaim_response(response: RegistryResponse, requested: Locator) -> (step: Result<
    ReclaimStep,
    RelayProtocolError,
>)
    ensures
        step == reclaim_meaning(response, requested),
{
    match response {
        RegistryResponse::Acquired(locator) => {
            if locator == requested {
                Ok(ReclaimStep::Reclaimed)
            } else {
                Err(RelayProtocolError::LocatorMismatch)
            }
        },
        RegistryResponse::Conflict => Ok(ReclaimStep::Conflict),
        RegistryResponse::Retry(after) => Ok(ReclaimStep::Retry(after)),
        RegistryResponse::Capacity => Err(RelayProtocolError::Capacity),
        RegistryResponse::ReservationRequired => Err(RelayProtocolError::ReservationRequired),
        RegistryResponse::Released => Err(RelayProtocolError::UnexpectedResponse),
    }
}

/// What an answer to an allocation means.
pub open spec fn allocation_meaning(response: RegistryResponse) -> Result<
    AllocationResponse,
    RelayProtocolError,
> {
    match response {
        RegistryResponse::Acquired(locator) => Ok(AllocationResponse::Acquired(locator)),
        RegistryResponse::Retry(after) => Ok(AllocationResponse::Retry(after)),
        RegistryResponse::Capacity => Err(RelayProtocolError::Capacity),
        RegistryResponse::ReservationRequired => Err(RelayProtocolError::ReservationRequired),
        RegistryResponse::Conflict | RegistryResponse::Released => Err(
            RelayProtocolError::UnexpectedResponse,
        ),
    }
}

/// Classifies an answer to an allocation.
pub fn allocation_response(response: RegistryResponse) -> (step: Result<
    AllocationResponse,
    RelayProtocolError,
>)
    ensures
        step == allocation_meaning(response),
{
    match response {
        RegistryResponse::Acquired(locator) => Ok(AllocationResponse::Acquired(locator)),
        RegistryResponse::Retry(after) => Ok(AllocationResponse::Retry(after)),
        RegistryResponse::Capacity => Err(RelayProtocolError::Capacity),
        RegistryResponse::ReservationRequired => Err(RelayProtocolError::ReservationRequired),
        RegistryResponse::Conflict | RegistryResponse::Released => Err(
            RelayProtocolError::UnexpectedResponse,
        ),
    }
}

/// What an answer to a release means.
pub open spec fn release_meaning(response: RegistryResponse) -> Result<(), RelayProtocolError> {
    match response {
        RegistryResponse::Released => Ok(()),
        RegistryResponse::Conflict => Err(RelayProtocolError::Conflict),
        RegistryResponse::ReservationRequired => Err(RelayProtocolError::ReservationRequired),
        _ => Err(RelayProtocolError::UnexpectedResponse),
    }
}

/// Classifies an answer to a release.
pub fn release_response(response: RegistryResponse) -> (result: Result<(), RelayProtocolError>)
    ensures
        result == release_meaning(response),
{
    match response {
        RegistryResponse::Released => Ok(()),
        RegistryResponse::Conflict => Err(RelayProtocolError::Conflict),
        RegistryResponse::ReservationRequired => Err(RelayProtocolError::ReservationRequired),
        RegistryResponse::Capacity
        | RegistryResponse::Acquired(_)
        | RegistryResponse::Retry(_) => Err(RelayProtocolError::UnexpectedResponse),
    }
}

/// What an answer to a resolve request means.
pub open spec fn resolve_meaning(response: ResolveResponse) -> Result<
    ResolvedResponse,
    RelayProtocolError,
> {
    match response {
        ResolveResponse::Resolved(Some(peer)) => Ok(ResolvedResponse::Resolved(peer)),
        ResolveResponse::Resolved(None) => Err(RelayProtocolError::InvalidPeerId),
        ResolveResponse::Retry(after) => Ok(ResolvedResponse::Retry(after)),
        ResolveResponse::Unavailable => Err(RelayProtocolError::Unavailable),
    }
}

/// Classifies an answer to a resolve request.
pub fn resolve_response(response: ResolveResponse) -> (step: Result<
    ResolvedResponse,
    RelayProtocolError,
>)
    ensures
        step == resolve_meaning(response),
{
    match response {
        ResolveResponse::Resolved(Some(peer)) => Ok(ResolvedResponse::Resolved(peer)),
        ResolveResponse::Resolved(None) => Err(RelayProtocolError::InvalidPeerId),
        ResolveResponse::Retry(after) => Ok(ResolvedResponse::Retry(after)),
        ResolveResponse::Unavailable => Err(RelayProtocolError::Unavailable),
    }
}

// ---------------------------------------------------------------------------
// Retrying
// ---------------------------------------------------------------------------

/// How long to wait before a retry: what the policy generated or what the relay
/// requested, whichever is longer.
pub open spec fn retry_pause(generated: u64, requested: RetryAfter) -> u64 {
    if generated >= requested.0 * MILLISECOND {
        generated
    } else {
        (requested.0 * MILLISECOND) as u64
    }
}

/// How long to wait before a retry, or that the policy grants none.
pub open spec fn retry_wait(generated: Option<u64>, requested: RetryAfter) -> Result<
    u64,
    RelayProtocolError,
> {
    match generated {
        Some(generated) => Ok(retry_pause(generated, requested)),
        None => Err(RelayProtocolError::RetryExhausted),
    }
}

/// How long to wait before a retry, if the policy grants one.
pub fn retry_delay(generated: Option<u64>, requested: RetryAfter) -> (delay: Result<
    u64,
    RelayProtocolError,
>)
    ensures
        delay == retry_wait(generated, requested),
{
    match generated {
        Some(generated) => {
            let wanted: u64 = requested.millis() as u64 * MILLISECOND;
            if generated >= wanted {
                Ok(generated)
            } else {
                Ok(wanted)
            }
        },
        None => Err(RelayProtocolError::RetryExhausted),
    }
}

/// What is asked of the relay.
#[derive(Debug, Clone, Copy, PartialEq, Eq, Structural)]
pub enum RelayRequest {
    Allocate,
    Reclaim(Locator),
    Resolve(Locator),
    EnterpriseResolve(Locator),
}

/// What the relay answered.
#[derive(Debug, Clone, Copy, PartialEq, Eq, Structural)]
pub enum RelayAnswer {
    Registry(RegistryResponse),
    Resolve(ResolveResponse),
    Enterprise(EnterpriseAttempt),
}

/// What an exchange came to.
#[derive(Debug, Clone, Copy, PartialEq, Eq, Structural)]
pub enum RelayOutcome {
    Allocated(Locator),
    Reclaimed(ReclaimResponse),
    Resolved(PeerId),
}

/// The outcome of one enterprise resolve attempt on a substream.
#[derive(Debug, Clone, Copy, PartialEq, Eq, Structural)]
pub enum EnterpriseAttempt {
    Resolved(PeerId),
    Retry(RetryAfter),
}

/// What an answer means for a request: an outcome, or a retry.
#[derive(Debug, Clone, Copy, PartialEq, Eq, Structural)]
pub enum RelayVerdict {
    Done(RelayOutcome),
    Retry(RetryAfter),
}

/// The answer is one that the protocol of the request can carry.
pub open spec fn answers(request: RelayRequest, answer: RelayAnswer) -> bool {
    match request {
        RelayRequest::Allocate | RelayRequest::Reclaim(_) => answer is Registry,
        RelayRequest::Resolve(_) => answer is Resolve,
        RelayRequest::EnterpriseResolve(_) => answer is Enterprise,
    }
}

/// What an answer means for its request.
pub open spec fn verdict(request: RelayRequest, answer: RelayAnswer) -> Result<
    RelayVerdict,
    RelayProtocolError,
> {
    match (request, answer) {
        (RelayRequest::Allocate, RelayAnswer::Registry(response)) => match allocation_meaning(
            response,
        ) {
            Ok(AllocationResponse::Acquired(locator)) => Ok(
                RelayVerdict::Done(RelayOutcome::Allocated(locator)),
            ),
            Ok(AllocationResponse::Retry(after)) => Ok(RelayVerdict::Retry(after)),
            Err(error) => Err(error),
        },
        (RelayRequest::Reclaim(locator), RelayAnswer::Registry(response)) => match reclaim_meaning(
            response,
            locator,
        ) {
            Ok(ReclaimStep::Reclaimed) => Ok(
                RelayVerdict::Done(RelayOutcome::Reclaimed(ReclaimResponse::Reclaimed)),
            ),
            Ok(ReclaimStep::Conflict) => Ok(
                RelayVerdict::Done(RelayOutcome::Reclaimed(ReclaimResponse::Conflict)),
            ),
            Ok(ReclaimStep::Retry(after)) => Ok(RelayVerdict::Retry(after)),
            Err(error) => Err(error),
        },
        (RelayRequest::Resolve(_), RelayAnswer::Resolve(response)) => match resolve_meaning(
            response,
        ) {
            Ok(ResolvedResponse::Resolved(peer)) => Ok(
                RelayVerdict::Done(RelayOutcome::Resolved(peer)),
            ),
            Ok(ResolvedResponse::Retry(after)) => Ok(RelayVerdict::Retry(after)),
            Err(error) => Err(error),
        },
        (RelayRequest::EnterpriseResolve(_), RelayAnswer::Enterprise(attempt)) => match attempt {
            EnterpriseAttempt::Resolved(peer) => Ok(
                RelayVerdict::Done(RelayOutcome::Resolved(peer)),
            ),
            EnterpriseAttempt::Retry(after) => Ok(RelayVerdict::Retry(after)),
        },
        _ => Err(RelayProtocolError::UnexpectedResponse),
    }
}

/// Decides on an answer.
pub fn relay_verdict(request: RelayRequest, answer: RelayAnswer) -> (decided: Result<
    RelayVerdict,
    RelayProtocolError,
>)
    ensures
        decided == verdict(request, answer),
{
    match (request, answer) {
        (RelayRequest::Allocate, RelayAnswer::Registry(response)) => {
            match allocation_response(response) {
                Ok(AllocationResponse::Acquired(locator)) => Ok(
                    RelayVerdict::Done(RelayOutcome::Allocated(locator)),
                ),
                Ok(AllocationResponse::Retry(after)) => Ok(RelayVerdict::Retry(after)),
                Err(error) => Err(error),
            }
        },
        (RelayRequest::Reclaim(locator), RelayAnswer::Registry(response)) => {
            match reclaim_response(response, locator) {
                Ok(ReclaimStep::Reclaimed) => Ok(
                    RelayVerdict::Done(RelayOutcome::Reclaimed(ReclaimResponse::Reclaimed)),
                ),
                Ok(ReclaimStep::Conflict) => Ok(
                    RelayVerdict::Done(RelayOutcome::Reclaimed(ReclaimResponse::Conflict)),
                ),
                Ok(ReclaimStep::Retry(after)) => Ok(RelayVerdict::Retry(after)),
                Err(error) => Err(error),
            }
        },
        (RelayRequest::Resolve(_), RelayAnswer::Resolve(response)) => {
            match resolve_response(response) {
                Ok(ResolvedResponse::Resolved(peer)) => Ok(
                    RelayVerdict::Done(RelayOutcome::Resolved(peer)),
                ),
                Ok(ResolvedResponse::Retry(after)) => Ok(RelayVerdict::Retry(after)),
                Err(error) => Err(error),
            }
        },
        (RelayRequest::EnterpriseResolve(_), RelayAnswer::Enterprise(attempt)) => match attempt {
            EnterpriseAttempt::Resolved(peer) => Ok(
                RelayVerdict::Done(RelayOutcome::Resolved(peer)),
            ),
            EnterpriseAttempt::Retry(after) => Ok(RelayVerdict::Retry(after)),
        },
        _ => Err(RelayProtocolError::UnexpectedResponse),
    }
}

/// What an exchange waits for.
#[derive(Debug, Clone, Copy, PartialEq, Eq, Structural)]
pub enum ExchangePhase {
    /// For the relay connection to be the only one again.
    Reconverging,
    /// For the answer to its request.
    Calling,
    /// For the pause before a retry to pass.
    Pausing,
    /// For nothing: it has come to an end.
    Finished,
}

/// What happened to an exchange.
#[derive(Debug, Clone, Copy, PartialEq, Eq)]
pub enum ExchangeEvent {
    /// Reconverging or pausing came to its end.
    Done(Result<(), EndpointError>),
    /// The call came to its end.
    Answered(Result<RelayAnswer, RelayProtocolError>),
    /// The deadline of the whole exchange passed.
    DeadlinePassed,
}

/// What an exchange wants done.
#[derive(Debug, Clone, Copy, PartialEq, Eq)]
pub enum ExchangeAction {
    Reconverge,
    Call(RelayRequest),
    /// Wait for so many nanoseconds, under the relay binding.
    Pause(u64),
    Finish(Result<RelayOutcome, RelayProtocolError>),
}

/// The event is one that can happen in the phase.
pub open spec fn exchange_awaits(phase: ExchangePhase, event: ExchangeEvent) -> bool {
    match phase {
        ExchangePhase::Reconverging | ExchangePhase::Pausing => event is Done
            || event is DeadlinePassed,
        ExchangePhase::Calling => event is Answered || event is DeadlinePassed,
        ExchangePhase::Finished => false,
    }
}

/// Where an exchange stands, with the retries that it has left (`None` when
/// they are not counted).
pub struct ExchangeView {
    pub request: RelayRequest,
    pub phase: ExchangePhase,
    pub left: Option<nat>,
}

impl ExchangeView {
    /// An exchange at its beginning.
    pub open spec fn initial(request: RelayRequest) -> ExchangeView {
        ExchangeView {
            request,
            phase: ExchangePhase::Reconverging,
            left: match request {
                RelayRequest::Allocate | RelayRequest::Reclaim(_) => Some(RETRY_LIMIT as nat),
                RelayRequest::Resolve(_) | RelayRequest::EnterpriseResolve(_) => None,
            },
        }
    }

    /// The end of the exchange.
    pub open spec fn finish(self, result: Result<RelayOutcome, RelayProtocolError>) -> (
        ExchangeView,
        ExchangeAction,
    ) {
        (ExchangeView { phase: ExchangePhase::Finished, ..self }, ExchangeAction::Finish(result))
    }

    /// What follows an event.
    pub open spec fn after(self, event: ExchangeEvent) -> (ExchangeView, ExchangeAction) {
        match event {
            ExchangeEvent::DeadlinePassed => self.finish(Err(RelayProtocolError::Timeout)),
            ExchangeEvent::Done(Err(error)) => self.finish(
                Err(RelayProtocolError::Endpoint(error)),
            ),
            ExchangeEvent::Done(Ok(_)) => if self.phase == ExchangePhase::Pausing {
                (
                    ExchangeView { phase: ExchangePhase::Reconverging, ..self },
                    ExchangeAction::Reconverge,
                )
            } else {
                (
                    ExchangeView { phase: ExchangePhase::Calling, ..self },
                    ExchangeAction::Call(self.request),
                )
            },
            ExchangeEvent::Answered(Err(error)) => self.finish(Err(error)),
            ExchangeEvent::Answered(Ok(answer)) => match verdict(self.request, answer) {
                Err(error) => self.finish(Err(error)),
                Ok(RelayVerdict::Done(outcome)) => self.finish(Ok(outcome)),
                Ok(RelayVerdict::Retry(after)) => if self.left == Some(0nat) {
                    self.finish(Err(RelayProtocolError::RetryExhausted))
                } else {
                    (
                        ExchangeView {
                            phase: ExchangePhase::Pausing,
                            left: match self.left {
                                Some(left) => Some((left - 1) as nat),
                                None => None,
                            },
                            ..self
                        },
                        ExchangeAction::Pause(
                            retry_pause(crate::backoff::RETRY_DELAY, after),
                        ),
                    )
                },
            },
        }
    }
}

/// One exchange with the relay, honoring its retry hints within a fixed budget
/// of retries (locators) or of time (resolving).
pub struct RelayExchange {
    request: RelayRequest,
    phase: ExchangePhase,
    budget: RetryBudget,
}

impl View for RelayExchange {
    type V = ExchangeView;

    closed spec fn view(&self) -> ExchangeView {
        ExchangeView { request: self.request, phase: self.phase, left: self.budget.left() }
    }
}

impl RelayExchange {
    /// Begins an exchange by making the relay connection the only one.
    pub fn new(request: RelayRequest) -> (exchange: Self)
        ensures
            exchange@ == ExchangeView::initial(request),
    {
        let budget = match request {
            RelayRequest::Allocate | RelayRequest::Reclaim(_) => RetryBudget::limited(),
            RelayRequest::Resolve(_) | RelayRequest::EnterpriseResolve(_) => {
                RetryBudget::unlimited()
            },
        };
        RelayExchange { request, phase: ExchangePhase::Reconverging, budget }
    }

    fn finish(&mut self, result: Result<RelayOutcome, RelayProtocolError>) -> (action:
        ExchangeAction)
        ensures
            (final(self)@, action) == old(self)@.finish(result),
    {
        self.phase = ExchangePhase::Finished;
        ExchangeAction::Finish(result)
    }

    /// Takes an event into account and says what to do next.
    pub fn advance(&mut self, event: ExchangeEvent) -> (action: ExchangeAction)
        requires
            exchange_awaits(old(self)@.phase, event),
        ensures
            (final(self)@, action) == old(self)@.after(event),
    {
        match event {
            ExchangeEvent::DeadlinePassed => self.finish(Err(RelayProtocolError::Timeout)),
            ExchangeEvent::Done(Err(error)) => self.finish(
                Err(RelayProtocolError::Endpoint(error)),
            ),
            ExchangeEvent::Done(Ok(())) => {
                if self.phase == ExchangePhase::Pausing {
                    self.phase = ExchangePhase::Reconverging;
                    ExchangeAction::Reconverge
                } else {
                    self.phase = ExchangePhase::Calling;
                    ExchangeAction::Call(self.request)
                }
            },
            ExchangeEvent::Answered(Err(error)) => self.finish(Err(error)),
            ExchangeEvent::Answered(Ok(answer)) => {
                match relay_verdict(self.request, answer) {
                    Err(error) => self.finish(Err(error)),
                    Ok(RelayVerdict::Done(outcome)) => self.finish(Ok(outcome)),
                    Ok(RelayVerdict::Retry(after)) => {
                        let granted = self.budget.next_delay();
                        match retry_delay(granted, after) {
                            Ok(delay) => {
                                self.phase = ExchangePhase::Pausing;
                                ExchangeAction::Pause(delay)
                            },
                            Err(error) => self.finish(Err(error)),
                        }
                    },
                }
            },
        }
    }
}

/// What a controller does with the outcome of the enterprise resolve.
#[derive(Debug, Clone, Copy, PartialEq, Eq)]
pub enum ResolveRoute {
    /// The relay does not offer it: resolve without enterprise authentication.
    Legacy,
    Finish(Result<PeerId, RelayProtocolError>),
}

/// What follows the enterprise resolve.
pub open spec fn resolve_route(enterprise: Result<PeerId, RelayProtocolError>) -> ResolveRoute {
    if enterprise == Err::<PeerId, RelayProtocolError>(
        RelayProtocolError::Endpoint(
            EndpointError::Application(ApplicationStreamError::UnsupportedProtocol),
        ),
    ) {
        ResolveRoute::Legacy
    } else {
        ResolveRoute::Finish(enterprise)
    }
}

/// The enterprise resolve is tried first; a relay that does not offer the
/// protocol is asked again by the plain one, and nothing else falls back.
pub fn resolve_peer_auto(enterprise: Result<PeerId, RelayProtocolError>) -> (route: ResolveRoute)
    ensures
        route == resolve_route(enterprise),
{
    match enterprise {
        Err(
            RelayProtocolError::Endpoint(
                EndpointError::Application(ApplicationStreamError::UnsupportedProtocol),
            ),
        ) => ResolveRoute::Legacy,
        _ => ResolveRoute::Finish(enterprise),
    }
}

// ---------------------------------------------------------------------------
// The enterprise exchange
// ---------------------------------------------------------------------------

/// The enterprise platforms that a relay offers, by their wire bits.
#[derive(Debug, Clone, Copy, PartialEq, Eq, Structural)]
pub struct EnterpriseProviders(pub u8);

/// One enterprise platform, by its wire code.
#[derive(Debug, Clone, Copy, PartialEq, Eq, Structural)]
pub struct EnterpriseProvider(pub u8);

/// One message of the relay in the enterprise exchange.
#[derive(Debug, PartialEq, Eq)]
pub enum EnterpriseResolveResponse {
    Providers(EnterpriseProviders),
    Retry(RetryAfter),
    Authenticate(String),
    /// The peer is missing when the bytes that stand for it are no peer identity.
    Resolved(Option<PeerId>),
    Unavailable,
    Expired,
    Failed,
    Cancelled,
}

/// What the enterprise exchange waits for.
#[derive(Debug, Clone, Copy, PartialEq, Eq, Structural)]
pub enum EnterprisePhase {
    /// The start message to be written.
    Starting,
    /// The platforms that the relay offers.
    AwaitingOffer,
    /// The user's choice of one of them.
    Selecting,
    /// The selection to be written.
    WritingSelection,
    /// The authorization address.
    AwaitingAuthorization,
    /// The address to be shown to the user.
    Opening,
    /// The result after the authentication.
    AwaitingResult,
    /// Nothing: the exchange has come to an end.
    Finished,
}

/// What happened to an enterprise exchange.
#[derive(Debug, PartialEq, Eq)]
pub enum EnterpriseEvent {
    Written(Result<(), RelayProtocolError>),
    Response(Result<EnterpriseResolveResponse, RelayProtocolError>),
    Selected(Result<EnterpriseProvider, RelayProtocolError>),
    Opened(Result<(), RelayProtocolError>),
}

/// What an enterprise exchange wants done.
#[derive(Debug, PartialEq, Eq)]
pub enum EnterpriseAction {
    WriteStart(Locator),
    Read,
    Select(EnterpriseProviders),
    WriteSelection(EnterpriseProvider),
    Open(String),
    Finish(Result<EnterpriseAttempt, RelayProtocolError>),
}

/// The event is one that can happen in the phase.
pub open spec fn enterprise_awaits(phase: EnterprisePhase, event: EnterpriseEvent) -> bool {
    match phase {
        EnterprisePhase::Starting | EnterprisePhase::WritingSelection => event is Written,
        EnterprisePhase::AwaitingOffer
        | EnterprisePhase::AwaitingAuthorization
        | EnterprisePhase::AwaitingResult => event is Response,
        EnterprisePhase::Selecting => event is Selected,
        EnterprisePhase::Opening => event is Opened,
        EnterprisePhase::Finished => false,
    }
}

/// The end of an enterprise exchange.
pub open spec fn enterprise_end(result: Result<EnterpriseAttempt, RelayProtocolError>) -> (
    EnterprisePhase,
    EnterpriseAction,
) {
    (EnterprisePhase::Finished, EnterpriseAction::Finish(result))
}

/// What the last message of the relay means.
pub open spec fn enterprise_result(response: EnterpriseResolveResponse) -> Result<
    EnterpriseAttempt,
    RelayProtocolError,
> {
    match response {
        EnterpriseResolveResponse::Resolved(Some(peer)) => Ok(EnterpriseAttempt::Resolved(peer)),
        EnterpriseResolveResponse::Resolved(None) => Err(RelayProtocolError::InvalidPeerId),
        EnterpriseResolveResponse::Unavailable => Err(RelayProtocolError::Unavailable),
        EnterpriseResolveResponse::Expired => Err(RelayProtocolError::EnterpriseExpired),
        EnterpriseResolveResponse::Failed | EnterpriseResolveResponse::Cancelled => Err(
            RelayProtocolError::EnterpriseRejected,
        ),
        _ => Err(RelayProtocolError::UnexpectedResponse),
    }
}

/// What follows an event of an enterprise exchange: start, offer, selection,
/// authorization address, result, in this order.
pub open spec fn enterprise_after(phase: EnterprisePhase, event: EnterpriseEvent) -> (
    EnterprisePhase,
    EnterpriseAction,
) {
    match event {
        EnterpriseEvent::Written(Err(error)) => enterprise_end(Err(error)),
        EnterpriseEvent::Response(Err(error)) => enterprise_end(Err(error)),
        EnterpriseEvent::Selected(Err(error)) => enterprise_end(Err(error)),
        EnterpriseEvent::Opened(Err(error)) => enterprise_end(Err(error)),
        EnterpriseEvent::Written(Ok(_)) => if phase == EnterprisePhase::Starting {
            (EnterprisePhase::AwaitingOffer, EnterpriseAction::Read)
        } else {
            (EnterprisePhase::AwaitingAuthorization, EnterpriseAction::Read)
        },
        EnterpriseEvent::Selected(Ok(provider)) => (
            EnterprisePhase::WritingSelection,
            EnterpriseAction::WriteSelection(provider),
        ),
        EnterpriseEvent::Opened(Ok(_)) => (EnterprisePhase::AwaitingResult, EnterpriseAction::Read),
        EnterpriseEvent::Response(Ok(response)) => match phase {
            EnterprisePhase::AwaitingOffer => match response {
                EnterpriseResolveResponse::Retry(after) => enterprise_end(
                    Ok(EnterpriseAttempt::Retry(after)),
                ),
                EnterpriseResolveResponse::Providers(providers) => (
                    EnterprisePhase::Selecting,
                    EnterpriseAction::Select(providers),
                ),
                _ => enterprise_end(Err(RelayProtocolError::UnexpectedResponse)),
            },
            EnterprisePhase::AwaitingAuthorization => match response {
                EnterpriseResolveResponse::Authenticate(url) => (
                    EnterprisePhase::Opening,
                    EnterpriseAction::Open(url),
                ),
                _ => enterprise_end(Err(RelayProtocolError::UnexpectedResponse)),
            },
            _ => enterprise_end(enterprise_result(response)),
        },
    }
}

/// One enterprise resolve attempt on a substream.
pub struct EnterpriseExchange {
    phase: EnterprisePhase,
}

impl EnterpriseExchange {
    /// What the exchange waits for.
    pub closed spec fn awaited(self) -> EnterprisePhase {
        self.phase
    }

    /// Begins an exchange with the start message.
    pub fn new(locator: Locator) -> (begun: (Self, EnterpriseAction))
        ensures
            begun.0.awaited() == EnterprisePhase::Starting,
            begun.1 == EnterpriseAction::WriteStart(locator),
    {
        (
            EnterpriseExchange { phase: EnterprisePhase::Starting },
            EnterpriseAction::WriteStart(locator),
        )
    }

    /// What the exchange waits for.
    pub fn phase(&self) -> (phase: EnterprisePhase)
        ensures
            phase == self.awaited(),
    {
        self.phase
    }

    fn finish(&mut self, result: Result<EnterpriseAttempt, RelayProtocolError>) -> (action:
        EnterpriseAction)
        ensures
            (final(self).awaited(), action) == enterprise_end(result),
    {
        self.phase = EnterprisePhase::Finished;
        EnterpriseAction::Finish(result)
    }

    /// Takes an event into account and says what to do next.
    pub fn advance(&mut self, event: EnterpriseEvent) -> (action: EnterpriseAction)
        requires
            enterprise_awaits(old(self).awaited(), event),
        ensures
            (final(self).awaited(), action) == enterprise_after(old(self).awaited(), event),
    {
        match event {
            EnterpriseEvent::Written(Err(error)) => self.finish(Err(error)),
            EnterpriseEvent::Response(Err(error)) => self.finish(Err(error)),
            EnterpriseEvent::Selected(Err(error)) => self.finish(Err(error)),
            EnterpriseEvent::Opened(Err(error)) => self.finish(Err(error)),
            EnterpriseEvent::Written(Ok(())) => {
                if self.phase == EnterprisePhase::Starting {
                    self.phase = EnterprisePhase::AwaitingOffer;
                } else {
                    self.phase = EnterprisePhase::AwaitingAuthorization;
                }
                EnterpriseAction::Read
            },
            EnterpriseEvent::Selected(Ok(provider)) => {
                self.phase = EnterprisePhase::WritingSelection;
                EnterpriseAction::WriteSelection(provider)
            },
            EnterpriseEvent::Opened(Ok(())) => {
                self.phase = EnterprisePhase::AwaitingResult;
                EnterpriseAction::Read
            },
            EnterpriseEvent::Response(Ok(response)) => match self.phase {
                EnterprisePhase::AwaitingOffer => match response {
                    EnterpriseResolveResponse::Retry(after) => self.finish(
                        Ok(EnterpriseAttempt::Retry(after)),
                    ),
                    EnterpriseResolveResponse::Providers(providers) => {
                        self.phase = EnterprisePhase::Selecting;
                        EnterpriseAction::Select(providers)
                    },
                    _ => self.finish(Err(RelayProtocolError::UnexpectedResponse)),
                },
                EnterprisePhase::AwaitingAuthorization => match response {
                    EnterpriseResolveResponse::Authenticate(url) => {
                        self.phase = EnterprisePhase::Opening;
                        EnterpriseAction::Open(url)
                    },
                    _ => self.finish(Err(RelayProtocolError::UnexpectedResponse)),
                },
                _ => match response {
                    EnterpriseResolveResponse::Resolved(Some(peer)) => self.finish(
                        Ok(EnterpriseAttempt::Resolved(peer)),
                    ),
                    EnterpriseResolveResponse::Resolved(None) => self.finish(
                        Err(RelayProtocolError::InvalidPeerId),
                    ),
                    EnterpriseResolveResponse::Unavailable => self.finish(
                        Err(RelayProtocolError::Unavailable),
                    ),
                    EnterpriseResolveResponse::Expired => self.finish(
                        Err(RelayProtocolError::EnterpriseExpired),
                    ),
                    EnterpriseResolveResponse::Failed
                    | EnterpriseResolveResponse::Cancelled => self.finish(
                        Err(RelayProtocolError::EnterpriseRejected),
                    ),
                    _ => self.finish(Err(RelayProtocolError::UnexpectedResponse)),
                },
            },
        }
    }
}

// ---------------------------------------------------------------------------
// The framing of enterprise messages
// ---------------------------------------------------------------------------

/// Tag of a message that carries one byte.
pub const PROVIDERS_TAG: u8 = 0x10;

/// Tag of a message that carries four bytes.
pub const RETRY_TAG: u8 = 0x11;

/// Tag of a message that carries an address behind a two-byte length.
pub const AUTHENTICATE_TAG: u8 = 0x12;

/// Tag of a message that carries a peer behind a one-byte length.
pub const RESOLVED_TAG: u8 = 0x13;

/// What the bytes read so far say of the message that they begin.
#[derive(Debug, Clone, Copy, PartialEq, Eq, Structural)]
pub enum EnterpriseFrame {
    /// The message goes on for at least so many bytes, which are read next.
    Needs(usize),
    /// The message is complete.
    Complete,
    /// The message announces an address that is too long.
    TooLong,
}

/// The length that two bytes announce, the most significant first.
pub open spec fn announced(high: u8, low: u8) -> int {
    high * 256 + low
}

/// The length of the message that the bytes begin, as far as they tell: an
/// address is announced by the second and third byte, a peer by the second.
pub open spec fn enterprise_frame_len(bytes: Seq<u8>) -> int {
    if bytes.len() == 0 {
        1
    } else if bytes[0] == PROVIDERS_TAG {
        2
    } else if bytes[0] == RETRY_TAG {
        5
    } else if bytes[0] == AUTHENTICATE_TAG {
        if bytes.len() < 3 {
            3
        } else {
            3 + announced(bytes[1], bytes[2])
        }
    } else if bytes[0] == RESOLVED_TAG {
        if bytes.len() < 2 {
            2
        } else {
            2 + bytes[1]
        }
    } else {
        1
    }
}

/// The bytes announce an address longer than the bound.
pub open spec fn enterprise_frame_too_long(bytes: Seq<u8>, max_url: usize) -> bool {
    bytes.len() >= 3 && bytes[0] == AUTHENTICATE_TAG && announced(bytes[1], bytes[2]) > max_url
}

/// How to go on reading a message of which these bytes have been read, where
/// an address has at most `max_url` bytes. The announced length is judged
/// before anything is read that it announces.
pub fn enterprise_frame(bytes: &[u8], max_url: usize) -> (frame: EnterpriseFrame)
    ensures
        frame == if enterprise_frame_too_long(bytes@, max_url) {
            EnterpriseFrame::TooLong
        } else if bytes@.len() < enterprise_frame_len(bytes@) {
            EnterpriseFrame::Needs((enterprise_frame_len(bytes@) - bytes@.len()) as usize)
        } else {
            EnterpriseFrame::Complete
        },
{
    let len: usize = bytes.len();
    if len == 0 {
        return EnterpriseFrame::Needs(1);
    }
    let tag: u8 = bytes[0];
    let mut wanted: usize = 1;
    if tag == PROVIDERS_TAG {
        wanted = 2;
    } else if tag == RETRY_TAG {
        wanted = 5;
    } else if tag == AUTHENTICATE_TAG {
        wanted = 3;
        if len >= 3 {
            let length: usize = bytes[1] as usize * 256 + bytes[2] as usize;
            if length > max_url {
                return EnterpriseFrame::TooLong;
            }
            wanted = 3 + length;
        }
    } else if tag == RESOLVED_TAG {
        wanted = 2;
        if len >= 2 {
            wanted = 2 + bytes[1] as usize;
        }
    }
    if len < wanted {
        EnterpriseFrame::Needs(wanted - len)
    } else {
        EnterpriseFrame::Complete
    }
}

/// The failure of a message that announces an address that is too long.
pub fn enterprise_frame_failure() -> (error: RelayProtocolError)
    ensures
        error == RelayProtocolError::Protocol(
            ProtocolError::InvalidField(ProtocolField::AuthorizationUrl),
        ),
{
    RelayProtocolError::Protocol(ProtocolError::InvalidField(ProtocolField::AuthorizationUrl))
}

// ---------------------------------------------------------------------------
// One response on a stream
// ---------------------------------------------------------------------------

/// The response of an exchange whose answer has exactly `RESPONSE` bytes, out of
/// what was received: everything up to the end of the stream, or one byte more
/// than the response has.
pub fn exact_exchange<const RESPONSE: usize>(received: &[u8]) -> (response: Result<
    [u8; RESPONSE],
    RelayProtocolError,
>)
    ensures
        match response {
            Ok(bytes) => received@.len() == RESPONSE && bytes@ == received@,
            Err(error) => received@.len() != RESPONSE && error == if received@.len() < RESPONSE {
                RelayProtocolError::Io(IoFailure::UnexpectedEof)
            } else {
                RelayProtocolError::Protocol(ProtocolError::TrailingBytes)
            },
        },
{
    if received.len() < RESPONSE {
        return Err(RelayProtocolError::Io(IoFailure::UnexpectedEof));
    }
    if received.len() > RESPONSE {
        return Err(RelayProtocolError::Protocol(ProtocolError::TrailingBytes));
    }
    let mut response: [u8; RESPONSE] = [0; RESPONSE];
    let mut at: usize = 0;
    while at < RESPONSE
        invariant
            at <= RESPONSE,
            received@.len() == RESPONSE,
            forall|i: int| 0 <= i < at ==> response@[i] == received@[i],
        decreases RESPONSE - at,
    {
        response[at] = received[at];
        at += 1;
    }
    assert(response@ =~= received@);
    Ok(response)
}

/// A response of at most `CAPACITY` bytes.
pub struct BoundedResponse<const CAPACITY: usize> {
    pub bytes: [u8; CAPACITY],
    pub len: usize,
}

impl<const CAPACITY: usize> BoundedResponse<CAPACITY> {
    /// The bytes of the response.
    pub fn as_slice(&self) -> (bytes: &[u8])
        requires
            self.len <= CAPACITY,
        ensures
            bytes@ == self.bytes@.take(self.len as int),
    {
        let bytes = &self.bytes[0..self.len];
        assert(bytes@ =~= self.bytes@.take(self.len as int));
        bytes
    }
}

/// The response of an exchange whose answer has at most `CAPACITY` bytes, out of
/// what was received: everything up to the end of the stream, or one byte more
/// than a response can have.
pub fn bounded_exchange<const CAPACITY: usize>(received: &[u8]) -> (response: Result<
    BoundedResponse<CAPACITY>,
    RelayProtocolError,
>)
    ensures
        match response {
            Ok(response) => received@.len() <= CAPACITY && response.len == received@.len()
                && response.bytes@.take(response.len as int) == received@ && response.bytes@ == received@ + Seq::new(
                (CAPACITY - received@.len()) as nat,
                |i: int| 0u8,
            ),
            Err(error) => received@.len() > CAPACITY && error == RelayProtocolError::Protocol(
                ProtocolError::TrailingBytes,
            ),
        },
{
    if received.len() > CAPACITY {
        return Err(RelayProtocolError::Protocol(ProtocolError::TrailingBytes));
    }
    let len: usize = received.len();
    let mut bytes: [u8; CAPACITY] = [0; CAPACITY];
    let mut at: usize = 0;
    while at < len
        invariant
            at <= len <= CAPACITY,
            received@.len() == len,
            forall|i: int| 0 <= i < at ==> bytes@[i] == received@[i],
            forall|i: int| at <= i < CAPACITY ==> bytes@[i] == 0u8,
        decreases len - at,
    {
        bytes[at] = received[at];
        at += 1;
    }
    assert(bytes@.take(len as int) =~= received@);
    assert(bytes@ =~= received@ + Seq::new((CAPACITY - len) as nat, |i: int| 0u8));
    Ok(BoundedResponse { bytes, len })
}

// ---------------------------------------------------------------------------
// Laws
// ---------------------------------------------------------------------------

/// Where an exchange stands after some events, and how many pauses it asked for.
pub open spec fn exchange_run(state: ExchangeView, events: Seq<ExchangeEvent>) -> (
    ExchangeView,
    nat,
)
    decreases events.len(),
{
    if events.len() == 0 {
        (state, 0)
    } else {
        let (next, action) = state.after(events[0]);
        let (end, pauses) = exchange_run(next, events.skip(1));
        (end, if action is Pause {
            pauses + 1
        } else {
            pauses
        })
    }
}

/// An exchange with a budget of retries pauses once for each retry that it uses
/// up, whatever the relay answers: never more often than the budget allows.
pub proof fn law_pauses_use_up_the_budget(state: ExchangeView, events: Seq<ExchangeEvent>)
    requires
        state.left is Some,
    ensures
        exchange_run(state, events).0.left is Some,
        exchange_run(state, events).1 + exchange_run(state, events).0.left->0 == state.left->0,
    decreases events.len(),
{
    if events.len() != 0 {
        law_pauses_use_up_the_budget(state.after(events[0]).0, events.skip(1));
    }
}

/// While a retry is left, an answer that asks for one is followed by a pause, and
/// the pause is never shorter than the relay asked for, nor than the policy's own
/// delay.
pub proof fn law_a_pause_honors_the_relay(
    state: ExchangeView,
    answer: RelayAnswer,
    after: RetryAfter,
)
    requires
        verdict(state.request, answer) == Ok::<RelayVerdict, RelayProtocolError>(
            RelayVerdict::Retry(after),
        ),
        state.left != Some(0nat),
    ensures
        ({
            let action = state.after(ExchangeEvent::Answered(Ok(answer))).1;
            &&& action is Pause
            &&& action->Pause_0 >= crate::backoff::RETRY_DELAY
            &&& action->Pause_0 >= after.0 * MILLISECOND
        }),
{
}

/// A reclaim succeeds only when the relay acknowledged the very locator that was
/// asked for.
pub proof fn law_a_reclaim_keeps_the_locator(locator: Locator, answer: RelayAnswer)
    ensures
        verdict(RelayRequest::Reclaim(locator), answer) == Ok::<RelayVerdict, RelayProtocolError>(
            RelayVerdict::Done(RelayOutcome::Reclaimed(ReclaimResponse::Reclaimed)),
        ) <==> answer == RelayAnswer::Registry(RegistryResponse::Acquired(locator)),
{
}

/// Reading on as [`enterprise_frame`] says never reads past the end of a message:
/// what a beginning of a message needs stays within what the whole message needs.
pub proof fn law_a_message_is_read_to_its_end(message: Seq<u8>, read: int)
    requires
        0 <= read < message.len(),
        message.len() == enterprise_frame_len(message),
    ensures
        read < enterprise_frame_len(message.take(read)) <= message.len(),
{
}

/// A message of the enterprise exchange is bounded by what an address may have,
/// before any of the address is read.
pub proof fn law_a_message_is_bounded(bytes: Seq<u8>, max_url: usize)
    requires
        !enterprise_frame_too_long(bytes, max_url),
    ensures
        enterprise_frame_len(bytes) <= if max_url < 254 {
            257
        } else {
            3 + max_url
        },
{
}

/// The phases of an enterprise exchange, in the order in which they come.
pub open spec fn enterprise_rank(phase: EnterprisePhase) -> int {
    match phase {
        EnterprisePhase::Starting => 0,
        EnterprisePhase::AwaitingOffer => 1,
        EnterprisePhase::Selecting => 2,
        EnterprisePhase::WritingSelection => 3,
        EnterprisePhase::AwaitingAuthorization => 4,
        EnterprisePhase::Opening => 5,
        EnterprisePhase::AwaitingResult => 6,
        EnterprisePhase::Finished => 7,
    }
}

/// Every event moves an enterprise exchange on, one phase at a time or to its
/// end, so that it ends after at most seven events; a peer is resolved only by
/// the last message, after the authorization.
pub proof fn law_an_enterprise_exchange_moves_on(phase: EnterprisePhase, event: EnterpriseEvent)
    requires
        enterprise_awaits(phase, event),
    ensures
        ({
            let (next, action) = enterprise_after(phase, event);
            &&& enterprise_rank(next) == enterprise_rank(phase) + 1 || next
                == EnterprisePhase::Finished
            &&& action is Finish <==> next == EnterprisePhase::Finished
            &&& action matches EnterpriseAction::Finish(Ok(EnterpriseAttempt::Resolved(_)))
                ==> phase == EnterprisePhase::AwaitingResult
        }),
{
}

/// A resolve exchange, plain or enterprise, comes to a peer exactly when the relay's
/// answer named that very peer, and to a retry exactly when the relay asked for it.
pub proof fn law_a_resolve_comes_to_the_peer_that_was_named(
    locator: Locator,
    answer: RelayAnswer,
    peer: PeerId,
    after: RetryAfter,
)
    ensures
        verdict(RelayRequest::Resolve(locator), answer) == Ok::<RelayVerdict, RelayProtocolError>(
            RelayVerdict::Done(RelayOutcome::Resolved(peer)),
        ) <==> answer == RelayAnswer::Resolve(ResolveResponse::Resolved(Some(peer))),
        verdict(RelayRequest::EnterpriseResolve(locator), answer) == Ok::<
            RelayVerdict,
            RelayProtocolError,
        >(RelayVerdict::Done(RelayOutcome::Resolved(peer))) <==> answer == RelayAnswer::Enterprise(
            EnterpriseAttempt::Resolved(peer),
        ),
        verdict(RelayRequest::Resolve(locator), answer) == Ok::<RelayVerdict, RelayProtocolError>(
            RelayVerdict::Retry(after),
        ) <==> answer == RelayAnswer::Resolve(ResolveResponse::Retry(after)),
        verdict(RelayRequest::EnterpriseResolve(locator), answer) == Ok::<
            RelayVerdict,
            RelayProtocolError,
        >(RelayVerdict::Retry(after)) <==> answer == RelayAnswer::Enterprise(
            EnterpriseAttempt::Retry(after),
        ),
        verdict(RelayRequest::Resolve(locator), answer) == Err::<RelayVerdict, RelayProtocolError>(
            RelayProtocolError::Unavailable,
        ) <==> answer == RelayAnswer::Resolve(ResolveResponse::Unavailable),
        verdict(RelayRequest::Resolve(locator), answer) == Err::<RelayVerdict, RelayProtocolError>(
            RelayProtocolError::InvalidPeerId,
        ) <==> answer == RelayAnswer::Resolve(ResolveResponse::Resolved(None)),
{
}

/// The exchange itself ends with a peer exactly when the relay's answer resolved its
/// locator to that peer.
pub proof fn law_an_exchange_ends_with_the_resolved_peer(
    state: ExchangeView,
    answer: RelayAnswer,
    peer: PeerId,
)
    requires
        state.request is Resolve || state.request is EnterpriseResolve,
    ensures
        state.after(ExchangeEvent::Answered(Ok(answer))).1 == ExchangeAction::Finish(
            Ok(RelayOutcome::Resolved(peer)),
        ) <==> answer == (if state.request is Resolve {
            RelayAnswer::Resolve(ResolveResponse::Resolved(Some(peer)))
        } else {
            RelayAnswer::Enterprise(EnterpriseAttempt::Resolved(peer))
        }),
{
}

/// An allocation comes to the locator that the relay acquired; a reclaim comes to a
/// conflict when the relay reports one. Both retry when asked to, and pass on that the
/// relay is full or wants a reservation.
pub proof fn law_the_registry_decides_on_locators(
    requested: Locator,
    acquired: Locator,
    answer: RelayAnswer,
    after: RetryAfter,
)
    ensures
        verdict(RelayRequest::Allocate, answer) == Ok::<RelayVerdict, RelayProtocolError>(
            RelayVerdict::Done(RelayOutcome::Allocated(acquired)),
        ) <==> answer == RelayAnswer::Registry(RegistryResponse::Acquired(acquired)),
        verdict(RelayRequest::Reclaim(requested), answer) == Ok::<RelayVerdict, RelayProtocolError>(
            RelayVerdict::Done(RelayOutcome::Reclaimed(ReclaimResponse::Conflict)),
        ) <==> answer == RelayAnswer::Registry(RegistryResponse::Conflict),
        verdict(RelayRequest::Reclaim(requested), answer) == Err::<
            RelayVerdict,
            RelayProtocolError,
        >(RelayProtocolError::LocatorMismatch) <==> (answer matches RelayAnswer::Registry(
            RegistryResponse::Acquired(other),
        ) && other != requested),
        forall|request: RelayRequest|
            request == RelayRequest::Allocate || request == RelayRequest::Reclaim(requested) ==> {
                let decided = #[trigger] verdict(request, answer);
                &&& decided == Ok::<RelayVerdict, RelayProtocolError>(RelayVerdict::Retry(after))
                    <==> answer == RelayAnswer::Registry(RegistryResponse::Retry(after))
                &&& decided == Err::<RelayVerdict, RelayProtocolError>(RelayProtocolError::Capacity)
                    <==> answer == RelayAnswer::Registry(RegistryResponse::Capacity)
                &&& decided == Err::<RelayVerdict, RelayProtocolError>(
                    RelayProtocolError::ReservationRequired,
                ) <==> answer == RelayAnswer::Registry(RegistryResponse::ReservationRequired)
            },
        verdict(
            RelayRequest::Allocate,
            RelayAnswer::Registry(RegistryResponse::Conflict),
        ) == Err::<RelayVerdict, RelayProtocolError>(RelayProtocolError::UnexpectedResponse),
        verdict(
            RelayRequest::Allocate,
            RelayAnswer::Registry(RegistryResponse::Released),
        ) == Err::<RelayVerdict, RelayProtocolError>(RelayProtocolError::UnexpectedResponse),
        verdict(
            RelayRequest::Reclaim(requested),
            RelayAnswer::Registry(RegistryResponse::Released),
        ) == Err::<RelayVerdict, RelayProtocolError>(RelayProtocolError::UnexpectedResponse),
{
}

/// An answer of another protocol than the request's is never taken for one.
pub proof fn law_an_answer_of_another_protocol_is_unexpected(
    request: RelayRequest,
    answer: RelayAnswer,
)
    requires
        match answer {
            RelayAnswer::Registry(_) => !(request is Allocate) && !(request is Reclaim),
            RelayAnswer::Resolve(_) => !(request is Resolve),
            RelayAnswer::Enterprise(_) => !(request is EnterpriseResolve),
        },
    ensures
        verdict(request, answer) == Err::<RelayVerdict, RelayProtocolError>(
            RelayProtocolError::UnexpectedResponse,
        ),
{
}

/// A pause is exactly the longer of the policy's delay and what the relay asked for,
/// and a budget that is not counted is never used up.
pub proof fn law_a_pause_is_the_longer_wait(
    state: ExchangeView,
    generated: u64,
    answer: RelayAnswer,
    after: RetryAfter,
)
    ensures
        retry_pause(generated, after) >= generated,
        retry_pause(generated, after) >= after.0 * MILLISECOND,
        retry_pause(generated, after) == generated || retry_pause(generated, after) == after.0
            * MILLISECOND,
        verdict(state.request, answer) == Ok::<RelayVerdict, RelayProtocolError>(
            RelayVerdict::Retry(after),
        ) ==> {
            let (next, action) = state.after(ExchangeEvent::Answered(Ok(answer)));
            &&& next.request == state.request
            &&& state.left == Some(0nat) ==> next.phase == ExchangePhase::Finished && action
                == ExchangeAction::Finish(Err(RelayProtocolError::RetryExhausted))
            &&& state.left != Some(0nat) ==> {
                &&& next.phase == ExchangePhase::Pausing
                &&& action == ExchangeAction::Pause(
                    retry_pause(crate::backoff::RETRY_DELAY, after),
                )
            }
            &&& state.left is None ==> next.left is None
            &&& state.left is Some && state.left->0 > 0 ==> next.left == Some((state.left->0 - 1) as nat)
        },
{
}

/// Before every call the relay connection is made the only one, also after a pause,
/// and the call repeats the very request.
pub proof fn law_a_call_follows_reconvergence(state: ExchangeView)
    ensures
        state.phase == ExchangePhase::Reconverging ==> state.after(ExchangeEvent::Done(Ok(()))) == (
            ExchangeView { phase: ExchangePhase::Calling, ..state },
            ExchangeAction::Call(state.request),
        ),
        state.phase == ExchangePhase::Pausing ==> state.after(ExchangeEvent::Done(Ok(()))) == (
            ExchangeView { phase: ExchangePhase::Reconverging, ..state },
            ExchangeAction::Reconverge,
        ),
{
}

/// A failure ends the exchange at once and is passed on: of the endpoint, of the call,
/// or of the deadline.
pub proof fn law_a_failure_ends_the_exchange(
    state: ExchangeView,
    endpoint: EndpointError,
    error: RelayProtocolError,
    answer: RelayAnswer,
)
    ensures
        state.after(ExchangeEvent::DeadlinePassed).1 == ExchangeAction::Finish(
            Err(RelayProtocolError::Timeout),
        ),
        state.after(ExchangeEvent::Done(Err(endpoint))).1 == ExchangeAction::Finish(
            Err(RelayProtocolError::Endpoint(endpoint)),
        ),
        state.after(ExchangeEvent::Answered(Err(error))).1 == ExchangeAction::Finish(Err(error)),
        state.after(ExchangeEvent::DeadlinePassed).0.phase == ExchangePhase::Finished,
        state.after(ExchangeEvent::Done(Err(endpoint))).0.phase == ExchangePhase::Finished,
        state.after(ExchangeEvent::Answered(Err(error))).0.phase == ExchangePhase::Finished,
        verdict(state.request, answer) == Err::<RelayVerdict, RelayProtocolError>(error)
            ==> state.after(ExchangeEvent::Answered(Ok(answer))).1 == ExchangeAction::Finish(
            Err(error),
        ),
        forall|outcome: RelayOutcome|
            verdict(state.request, answer) == Ok::<RelayVerdict, RelayProtocolError>(
                RelayVerdict::Done(outcome),
            ) ==> #[trigger] state.finish(Ok(outcome)) == state.after(
                ExchangeEvent::Answered(Ok(answer)),
            ) && state.finish(Ok(outcome)).1 == ExchangeAction::Finish(Ok(outcome)),
{
}

/// An authentication that goes well offers the relay's platforms to the user, tells the
/// relay the user's choice, opens the relay's address, and ends with the peer that the
/// relay then names.
pub proof fn law_an_authentication_leads_to_the_peer(
    providers: EnterpriseProviders,
    provider: EnterpriseProvider,
    url: String,
    peer: PeerId,
)
    ensures
        enterprise_after(EnterprisePhase::Starting, EnterpriseEvent::Written(Ok(()))) == (
            EnterprisePhase::AwaitingOffer,
            EnterpriseAction::Read,
        ),
        enterprise_after(
            EnterprisePhase::AwaitingOffer,
            EnterpriseEvent::Response(Ok(EnterpriseResolveResponse::Providers(providers))),
        ) == (EnterprisePhase::Selecting, EnterpriseAction::Select(providers)),
        enterprise_after(EnterprisePhase::Selecting, EnterpriseEvent::Selected(Ok(provider))) == (
            EnterprisePhase::WritingSelection,
            EnterpriseAction::WriteSelection(provider),
        ),
        enterprise_after(EnterprisePhase::WritingSelection, EnterpriseEvent::Written(Ok(()))) == (
            EnterprisePhase::AwaitingAuthorization,
            EnterpriseAction::Read,
        ),
        enterprise_after(
            EnterprisePhase::AwaitingAuthorization,
            EnterpriseEvent::Response(Ok(EnterpriseResolveResponse::Authenticate(url))),
        ) == (EnterprisePhase::Opening, EnterpriseAction::Open(url)),
        enterprise_after(EnterprisePhase::Opening, EnterpriseEvent::Opened(Ok(()))) == (
            EnterprisePhase::AwaitingResult,
            EnterpriseAction::Read,
        ),
        enterprise_after(
            EnterprisePhase::AwaitingResult,
            EnterpriseEvent::Response(Ok(EnterpriseResolveResponse::Resolved(Some(peer)))),
        ) == (
            EnterprisePhase::Finished,
            EnterpriseAction::Finish(Ok(EnterpriseAttempt::Resolved(peer))),
        ),
{
}

/// Every way in which an enterprise exchange ends: a retry instead of an offer, the
/// peer, the refusal that the last message carries, a message out of turn, or a failure
/// of its own, which is passed on.
pub proof fn law_how_an_enterprise_exchange_ends(
    phase: EnterprisePhase,
    event: EnterpriseEvent,
    response: EnterpriseResolveResponse,
    error: RelayProtocolError,
)
    requires
        enterprise_awaits(phase, event),
    ensures
        event == EnterpriseEvent::Written(Err(error)) || event == EnterpriseEvent::Response(
            Err(error),
        ) || event == EnterpriseEvent::Selected(Err(error)) || event == EnterpriseEvent::Opened(
            Err(error),
        ) ==> enterprise_after(phase, event).1 == EnterpriseAction::Finish(Err(error)),
        phase == EnterprisePhase::AwaitingOffer && event == EnterpriseEvent::Response(Ok(response))
            && !(response is Providers) ==> enterprise_after(phase, event).1
            == EnterpriseAction::Finish(
            match response {
                EnterpriseResolveResponse::Retry(after) => Ok(EnterpriseAttempt::Retry(after)),
                _ => Err(RelayProtocolError::UnexpectedResponse),
            },
        ),
        phase == EnterprisePhase::AwaitingAuthorization && event == EnterpriseEvent::Response(
            Ok(response),
        ) && !(response is Authenticate) ==> enterprise_after(phase, event).1
            == EnterpriseAction::Finish(Err(RelayProtocolError::UnexpectedResponse)),
        phase == EnterprisePhase::AwaitingResult && event == EnterpriseEvent::Response(Ok(response))
            ==> {
            let action = enterprise_after(phase, event).1;
            &&& action is Finish
            &&& action->Finish_0 == Err::<EnterpriseAttempt, RelayProtocolError>(
                RelayProtocolError::Unavailable,
            ) <==> response is Unavailable
            &&& action->Finish_0 == Err::<EnterpriseAttempt, RelayProtocolError>(
                RelayProtocolError::EnterpriseExpired,
            ) <==> response is Expired
            &&& action->Finish_0 == Err::<EnterpriseAttempt, RelayProtocolError>(
                RelayProtocolError::EnterpriseRejected,
            ) <==> response is Failed || response is Cancelled
            &&& action->Finish_0 == Err::<EnterpriseAttempt, RelayProtocolError>(
                RelayProtocolError::InvalidPeerId,
            ) <==> response == EnterpriseResolveResponse::Resolved(None)
            &&& action->Finish_0 == Err::<EnterpriseAttempt, RelayProtocolError>(
                RelayProtocolError::UnexpectedResponse,
            ) <==> response is Providers || response is Retry || response is Authenticate
        },
{
}

/// The layout of the messages: one byte of platforms, four of a retry, an address behind
/// two bytes of length, a peer behind one; every other message is its tag alone.
pub proof fn law_the_layout_of_a_message(bytes: Seq<u8>)
    requires
        bytes.len() >= 3,
    ensures
        bytes[0] == 0x10 ==> enterprise_frame_len(bytes) == 1 + 1,
        bytes[0] == 0x11 ==> enterprise_frame_len(bytes) == 1 + 4,
        bytes[0] == 0x12 ==> enterprise_frame_len(bytes) == 1 + 2 + 256 * bytes[1] + bytes[2],
        bytes[0] == 0x13 ==> enterprise_frame_len(bytes) == 1 + 1 + bytes[1],
        bytes[0] < 0x10 || bytes[0] > 0x13 ==> enterprise_frame_len(bytes) == 1,
        forall|max_url: usize| #[trigger]
            enterprise_frame_too_long(bytes, max_url) <==> bytes[0] == 0x12 && 256 * bytes[1]
                + bytes[2] > max_url,
{
}

/// A locator is released exactly when the relay says so; a conflict and a missing
/// reservation are passed on, and every other answer is none to a release.
pub proof fn law_a_release_is_acknowledged(response: RegistryResponse)
    ensures
        release_meaning(response) is Ok <==> response == RegistryResponse::Released,
        release_meaning(response) == Err::<(), RelayProtocolError>(RelayProtocolError::Conflict)
            <==> response == RegistryResponse::Conflict,
        release_meaning(response) == Err::<(), RelayProtocolError>(
            RelayProtocolError::ReservationRequired,
        ) <==> response == RegistryResponse::ReservationRequired,
        release_meaning(response) == Err::<(), RelayProtocolError>(
            RelayProtocolError::UnexpectedResponse,
        ) <==> response is Acquired || response is Retry || response is Capacity,
{
}

/// A retry is granted exactly as long as the policy has a delay left, and never comes
/// earlier than either side wants.
pub proof fn law_a_retry_is_granted_while_a_delay_is_left(generated: u64, requested: RetryAfter)
    ensures
        retry_wait(None, requested) == Err::<u64, RelayProtocolError>(
            RelayProtocolError::RetryExhausted,
        ),
        retry_wait(Some(generated), requested) is Ok,
        retry_wait(Some(generated), requested)->Ok_0 >= generated,
        retry_wait(Some(generated), requested)->Ok_0 >= requested.0 * MILLISECOND,
        retry_wait(Some(generated), requested)->Ok_0 == generated || retry_wait(
            Some(generated),
            requested,
        )->Ok_0 == requested.0 * MILLISECOND,
{
}

/// The plain resolve is used exactly where the relay does not offer the enterprise one;
/// what the enterprise resolve came to is final otherwise, a peer and a failure alike.
pub proof fn law_only_a_missing_protocol_falls_back(
    enterprise: Result<PeerId, RelayProtocolError>,
)
    ensures
        resolve_route(enterprise) == ResolveRoute::Legacy <==> (enterprise matches Err(
            RelayProtocolError::Endpoint(
                EndpointError::Application(ApplicationStreamError::UnsupportedProtocol),
            ),
        )),
        resolve_route(enterprise) != ResolveRoute::Legacy ==> resolve_route(enterprise)
            == ResolveRoute::Finish(enterprise),
{
}

/// An exchange begins by making the relay connection the only one. Retries for a locator
/// are counted; those of a resolve are not, as a deadline ends it.
pub proof fn law_an_exchange_begins_with_its_budget(request: RelayRequest)
    ensures
        ({
            let state = ExchangeView::initial(request);
            &&& state.request == request
            &&& state.phase == ExchangePhase::Reconverging
            &&& request is Allocate || request is Reclaim ==> state.left == Some(20nat)
            &&& request is Resolve || request is EnterpriseResolve ==> state.left is None
        }),
{
}

/// An exchange has come to its end exactly when it says what it came to.
pub proof fn law_an_exchange_ends_with_a_result(state: ExchangeView, event: ExchangeEvent)
    requires
        exchange_awaits(state.phase, event),
    ensures
        state.after(event).1 is Finish <==> state.after(event).0.phase == ExchangePhase::Finished,
        state.after(event).0.request == state.request,
{
}

} // verus!
