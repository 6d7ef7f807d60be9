//! The secrets of a host: the advertisement of a code, and the authentication of
//! a controller that knows it.

use crate::host::HostError;
use crate::pake::{
    OpaquePake, OpaquePakeError, OpaqueRegistration, OpaqueServerState, PakeSecret, PeerIdBytes,
    MAX_CONTEXT_LEN,
};
use crate::protocol::Locator;
use vstd::prelude::*;

verus! {

/// How long a controller that came too early is asked to wait, in milliseconds.
pub const AUTH_RETRY_MILLIS: u32 = 1_000;

/// An advertised locator, with the registration of its code's secret.
pub struct AdvertisedLease {
    pub locator: Locator,
    pub registration: OpaqueRegistration,
}

/// Registers the secret of a fresh code for a locator; the secret is missing when
/// no random bytes could be had.
pub fn create_advertisement(
    locator: Locator,
    target: &PeerIdBytes,
    secret: Option<&PakeSecret>,
    pake: &mut OpaquePake,
) -> (result: Result<AdvertisedLease, HostError>)
    ensures
        match secret {
            None => result is Err && result->Err_0 == HostError::Random,
            Some(secret) => match result {
                Ok(lease) => lease.locator == locator && lease.registration.holds(secret.bytes@)
                    && lease.registration.credential() == target.bytes@
                    && crate::pake::setup_made(lease.registration.setup()),
                Err(error) => error == HostError::Pake(OpaquePakeError::Rejected)
                    && crate::pake::exchange_refused(secret.bytes@, target.bytes@),
            },
        },
{
    match secret {
        None => Err(HostError::Random),
        Some(secret) => match pake.register(target, secret) {
            Ok(registration) => Ok(AdvertisedLease { locator, registration }),
            Err(error) => Err(HostError::Pake(error)),
        },
    }
}

/// The host's first step of an authentication: its answer to the controller's
/// request, for the context that binds both identities and both nonces. It fails
/// when the controller's identity cannot be written, when no nonce could be had, or
/// when the exchange refuses the request; it never refuses that of a controller who
/// knows the registered secret.
pub fn begin_authentication(
    pake: &mut OpaquePake,
    registration: &OpaqueRegistration,
    identified: bool,
    nonce: bool,
    request: &[u8; 96],
    context: &[u8],
) -> (result: Result<(OpaqueServerState, [u8; 320]), HostError>)
    ensures
        !identified ==> result is Err && result->Err_0 == HostError::PeerIdentity,
        identified && !nonce ==> result is Err && result->Err_0 == HostError::Random,
        identified && nonce ==> match result {
            Ok((state, response)) => context@.len() <= MAX_CONTEXT_LEN
                && crate::pake::login_answered(
                registration.setup(),
                registration.file(),
                request@,
                registration.credential(),
                context@,
                state.state(),
                response@,
            ) && state.context() == context@ && state.server() == registration.credential(),
            Err(error) => error == HostError::Pake(OpaquePakeError::Rejected)
                && crate::pake::login_refused(
                registration.setup(),
                registration.file(),
                request@,
                registration.credential(),
                context@,
            ) || error == HostError::Pake(OpaquePakeError::WireSize) && context@.len()
                > MAX_CONTEXT_LEN,
        },
        forall|secret: Seq<u8>, client: Seq<u8>| #[trigger]
            registration.holds(secret) && #[trigger] crate::pake::login_begun(
                secret,
                client,
                request@,
            ) && context@.len() <= MAX_CONTEXT_LEN && identified && nonce ==> result is Ok,
{
    if !identified {
        return Err(HostError::PeerIdentity);
    }
    if !nonce {
        return Err(HostError::Random);
    }
    match pake.server_start(registration, request, context) {
        Ok(started) => Ok(started),
        Err(error) => Err(HostError::Pake(error)),
    }
}

/// The host's last step of an authentication: the controller is accepted exactly
/// when it sent the message that the host's state expects.
pub fn end_authentication(
    pake: &mut OpaquePake,
    state: OpaqueServerState,
    received: Result<[u8; 64], HostError>,
) -> (result: Result<(), HostError>)
    ensures
        match received {
            Err(error) => result is Err && result->Err_0 == error,
            Ok(finish) => match result {
                Ok(_) => finish@ == crate::pake::last_message(state.state()),
                Err(error) => finish@ != crate::pake::last_message(state.state()) && error
                    == HostError::Pake(OpaquePakeError::Rejected),
            },
        },
{
    match received {
        Err(error) => {
            let mut state = state;
            state.zeroize();
            Err(error)
        },
        Ok(finish) => match pake.server_finish(state, &finish) {
            Ok(key) => {
                let mut key = key;
                key.zeroize();
                Ok(())
            },
            Err(error) => Err(HostError::Pake(error)),
        },
    }
}

} // verus!
