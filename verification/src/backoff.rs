//! The retry policies: growing jittered delays towards the relay, and a fixed
//! budget of equal delays for one exchange.

use crate::network::{MILLISECOND, RELAY_BACKOFF_MAX, RELAY_BACKOFF_MIN};
use backon::BackoffBuilder;
use std::time::Duration;
use vstd::prelude::*;

verus! {

/// Declares [`backon::ExponentialBackoff`], the state of a growing backoff.
#[verifier::external_type_specification]
#[verifier::external_body]
pub struct ExExponentialBackoff(backon::ExponentialBackoff);

/// How many delays an exponential backoff has handed out.
pub uninterp spec fn exponential_attempts(backoff: backon::ExponentialBackoff) -> nat;

/// The shortest and the longest delay, in nanoseconds and without jitter, that
/// an exponential backoff was made with.
pub uninterp spec fn exponential_range(backoff: backon::ExponentialBackoff) -> (nat, nat);

/// Declares [`backon::ConstantBackoff`], the state of a constant backoff.
#[verifier::external_type_specification]
#[verifier::external_body]
pub struct ExConstantBackoff(backon::ConstantBackoff);

/// How many delays a constant backoff still hands out.
pub uninterp spec fn constant_left(backoff: backon::ConstantBackoff) -> nat;

/// The delay, in nanoseconds, that a constant backoff hands out.
pub uninterp spec fn constant_delay(backoff: backon::ConstantBackoff) -> nat;

/// The relay delay after `attempts` earlier ones, without jitter: doubling from
/// [`RELAY_BACKOFF_MIN`] up to [`RELAY_BACKOFF_MAX`].
pub open spec fn relay_delay(attempts: nat) -> nat
    decreases attempts,
{
    if attempts == 0 {
        RELAY_BACKOFF_MIN as nat
    } else {
        let doubled = 2 * relay_delay((attempts - 1) as nat);
        if doubled < RELAY_BACKOFF_MAX {
            doubled
        } else {
            RELAY_BACKOFF_MAX as nat
        }
    }
}

/// [`backon::ExponentialBuilder`] with jitter and without a bound on the
/// attempts, built: nothing has been handed out yet, and the delays grow
/// between `min` and `max`. The builder's own growth factor is two.
#[verifier::external_body]
fn build_exponential(min: u64, max: u64) -> (backoff: backon::ExponentialBackoff)
    ensures
        exponential_attempts(backoff) == 0,
        exponential_range(backoff) == (min as nat, max as nat),
{
    backon::ExponentialBuilder::default()
        .with_min_delay(Duration::from_nanos(min))
        .with_max_delay(Duration::from_nanos(max))
        .without_max_times()
        .with_jitter()
        .build()
}

/// `next` of [`backon::ExponentialBackoff`], in nanoseconds: the delay of the
/// policy and less than as much again as jitter, until `usize::MAX` delays have
/// been handed out. Stated for the range of the relay policy, whose delays the
/// outside code computes without rounding, and whose jitter, a fraction below one
/// of the delay, it never rounds up to the whole.
#[verifier::external_body]
fn next_exponential(backoff: &mut backon::ExponentialBackoff) -> (delay: Option<u64>)
    requires
        exponential_range(*old(backoff)) == (RELAY_BACKOFF_MIN as nat, RELAY_BACKOFF_MAX as nat),
    ensures
        exponential_range(*final(backoff)) == exponential_range(*old(backoff)),
        exponential_attempts(*old(backoff)) < usize::MAX ==> delay is Some && relay_delay(
            exponential_attempts(*old(backoff)),
        ) <= delay->0 < 2 * relay_delay(exponential_attempts(*old(backoff)))
            && exponential_attempts(*final(backoff)) == exponential_attempts(*old(backoff)) + 1,
        exponential_attempts(*old(backoff)) >= usize::MAX ==> delay is None
            && exponential_attempts(*final(backoff)) == exponential_attempts(*old(backoff)),
    no_unwind
{
    backoff.next().map(|delay| delay.as_nanos() as u64)
}

/// [`backon::ConstantBuilder`] without jitter, built: it hands out `times`
/// delays of `delay`.
#[verifier::external_body]
fn build_constant(delay: u64, times: usize) -> (backoff: backon::ConstantBackoff)
    ensures
        constant_left(backoff) == times,
        constant_delay(backoff) == delay,
{
    backon::ConstantBuilder::default()
        .with_delay(Duration::from_nanos(delay))
        .with_max_times(times)
        .build()
}

/// `next` of [`backon::ConstantBackoff`], in nanoseconds: the constant delay
/// while any is left. Stated for delays that fit the result.
#[verifier::external_body]
fn next_constant(backoff: &mut backon::ConstantBackoff) -> (delay: Option<u64>)
    requires
        constant_delay(*old(backoff)) <= u64::MAX,
    ensures
        constant_delay(*final(backoff)) == constant_delay(*old(backoff)),
        constant_left(*old(backoff)) > 0 ==> delay == Some(constant_delay(*old(backoff)) as u64)
            && constant_left(*final(backoff)) == constant_left(*old(backoff)) - 1,
        constant_left(*old(backoff)) == 0 ==> delay is None && constant_left(*final(backoff)) == 0,
{
    backoff.next().map(|delay| delay.as_nanos() as u64)
}

/// The retry policy shared by all paths to the relay.
pub struct RelayBackoff {
    inner: backon::ExponentialBackoff,
}

impl RelayBackoff {
    #[verifier::type_invariant]
    spec fn wf(self) -> bool {
        exponential_range(self.inner) == (RELAY_BACKOFF_MIN as nat, RELAY_BACKOFF_MAX as nat)
    }

    /// How many delays have been handed out.
    pub closed spec fn attempts(self) -> nat {
        exponential_attempts(self.inner)
    }

    /// The next delay: that of the policy, and less than as much again as jitter.
    /// There is always one, short of `usize::MAX` attempts.
    pub fn next_delay(&mut self) -> (delay: Option<u64>)
        ensures
            old(self).attempts() < usize::MAX ==> delay is Some && relay_delay(
                old(self).attempts(),
            ) <= delay->0 < 2 * relay_delay(old(self).attempts()) && final(self).attempts()
                == old(self).attempts() + 1,
            old(self).attempts() >= usize::MAX ==> delay is None && final(self).attempts() == old(
                self,
            ).attempts(),
            delay is Some ==> delay->0 < 2 * RELAY_BACKOFF_MAX,
    {
        proof {
            use_type_invariant(&*self);
            lemma_relay_delay_bounds(self.attempts());
        }
        next_exponential(&mut self.inner)
    }
}

/// Builds the single relay retry policy shared by controller and host paths.
pub fn relay_backoff() -> (backoff: RelayBackoff)
    ensures
        backoff.attempts() == 0,
{
    RelayBackoff { inner: build_exponential(RELAY_BACKOFF_MIN, RELAY_BACKOFF_MAX) }
}

/// The number of retries that one relay exchange is granted.
pub const RETRY_LIMIT: usize = 20;

/// The delay between two retries of a relay exchange.
pub const RETRY_DELAY: u64 = 250 * MILLISECOND;

/// The retries left to one relay exchange.
pub struct RetryBudget {
    inner: Option<backon::ConstantBackoff>,
}

impl RetryBudget {
    #[verifier::type_invariant]
    spec fn wf(self) -> bool {
        self.inner matches Some(inner) ==> constant_delay(inner) == RETRY_DELAY
    }

    /// The number of retries left; `None` when they are not counted.
    pub closed spec fn left(self) -> Option<nat> {
        match self.inner {
            Some(inner) => Some(constant_left(inner)),
            None => None,
        }
    }

    /// [`RETRY_LIMIT`] retries.
    pub fn limited() -> (budget: Self)
        ensures
            budget.left() == Some(RETRY_LIMIT as nat),
    {
        RetryBudget { inner: Some(build_constant(RETRY_DELAY, RETRY_LIMIT)) }
    }

    /// Retries without end, for an exchange that a deadline ends.
    pub fn unlimited() -> (budget: Self)
        ensures
            budget.left() is None,
    {
        RetryBudget { inner: None }
    }

    /// Uses up one retry: [`RETRY_DELAY`], or nothing when none is left.
    pub fn next_delay(&mut self) -> (delay: Option<u64>)
        ensures
            match old(self).left() {
                None => delay == Some(RETRY_DELAY) && final(self).left() is None,
                Some(left) => if left > 0 {
                    delay == Some(RETRY_DELAY) && final(self).left() == Some((left - 1) as nat)
                } else {
                    delay is None && final(self).left() == Some(0nat)
                },
            },
    {
        proof {
            use_type_invariant(&*self);
        }
        let mut taken: Option<backon::ConstantBackoff> = None;
        std::mem::swap(&mut taken, &mut self.inner);
        match taken {
            Some(inner) => {
                let mut inner = inner;
                let delay = next_constant(&mut inner);
                self.inner = Some(inner);
                delay
            },
            None => Some(RETRY_DELAY),
        }
    }
}

/// The relay delays stay within the policy's range.
proof fn lemma_relay_delay_bounds(attempts: nat)
    ensures
        RELAY_BACKOFF_MIN <= relay_delay(attempts) <= RELAY_BACKOFF_MAX,
    decreases attempts,
{
    if attempts > 0 {
        lemma_relay_delay_bounds((attempts - 1) as nat);
    }
}

/// The relay delays never shrink and never leave the policy's range; from the
/// sixth on they are the longest one.
pub proof fn law_relay_delays_grow_to_the_bound(attempts: nat, later: nat)
    requires
        attempts <= later,
    ensures
        RELAY_BACKOFF_MIN <= relay_delay(attempts) <= relay_delay(later) <= RELAY_BACKOFF_MAX,
        attempts >= 5 ==> relay_delay(attempts) == RELAY_BACKOFF_MAX,
    decreases later,
{
    lemma_relay_delay_bounds(attempts);
    lemma_relay_delay_bounds(later);
    if attempts < later {
        law_relay_delays_grow_to_the_bound(attempts, (later - 1) as nat);
    }
    if attempts >= 5 {
        lemma_sixth_relay_delay(attempts);
    }
}

proof fn lemma_sixth_relay_delay(attempts: nat)
    requires
        attempts >= 5,
    ensures
        relay_delay(attempts) == RELAY_BACKOFF_MAX,
    decreases attempts,
{
    if attempts == 5 {
        reveal_with_fuel(relay_delay, 6);
    } else {
        lemma_sixth_relay_delay((attempts - 1) as nat);
    }
}

/// The relay is tried again after a quarter of a second, and every further delay is
/// twice the one before, up to five seconds.
pub proof fn law_relay_delays_double(attempts: nat)
    ensures
        relay_delay(0) == 250 * MILLISECOND,
        relay_delay(attempts + 1) == if 2 * relay_delay(attempts) < 5_000 * MILLISECOND {
            2 * relay_delay(attempts)
        } else {
            (5_000 * MILLISECOND) as nat
        },
{
}

} // verus!
