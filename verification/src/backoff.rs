//! Retry delays that double after each failure, up to a ceiling.
//!
//! The policy only computes delays. Sleeping is left to the caller, so that
//! a wait can be abandoned the moment the user asks to stop.

use vstd::arithmetic::power2::{lemma2_to64, lemma_pow2_unfold, pow2};
use vstd::math::min;
use vstd::prelude::*;

verus! {

/// Shortest delay before a reconnection attempt, in seconds.
pub const MIN_BACKOFF_SECS: u64 = 2;

/// Longest delay before a reconnection attempt, in seconds.
pub const MAX_BACKOFF_SECS: u64 = 300;

/// The two bounds between which a retry delay moves, in seconds.
#[derive(Clone, Copy, Debug, PartialEq, Eq, Structural)]
pub struct BackoffPolicy {
    pub min_delay: u64,
    pub max_delay: u64,
}

impl BackoffPolicy {
    /// A policy is usable when its floor is positive and not above its
    /// ceiling.
    pub open spec fn wf(self) -> bool {
        0 < self.min_delay <= self.max_delay
    }

    /// The delay that follows `previous`: twice as long, but never above the
    /// ceiling.
    pub open spec fn next_delay(self, previous: int) -> int {
        min(2 * previous, self.max_delay as int)
    }

    /// The delay announced by a failure that comes after `failures` earlier
    /// failures in a row.
    pub open spec fn delay_after(self, failures: nat) -> int
        decreases failures,
    {
        if failures == 0 {
            self.min_delay as int
        } else {
            self.next_delay(self.delay_after((failures - 1) as nat))
        }
    }

    /// Builds a policy from its bounds, or nothing if they are unusable.
    pub fn new(min_delay: u64, max_delay: u64) -> (policy: Option<BackoffPolicy>)
        ensures
            policy == if 0 < min_delay <= max_delay {
                Some(BackoffPolicy { min_delay, max_delay })
            } else {
                None
            },
    {
        if 0 < min_delay && min_delay <= max_delay {
            Some(BackoffPolicy { min_delay, max_delay })
        } else {
            None
        }
    }

    /// The bounds of the watch command: from two seconds up to five minutes.
    pub open spec fn spec_standard() -> BackoffPolicy {
        BackoffPolicy { min_delay: MIN_BACKOFF_SECS, max_delay: MAX_BACKOFF_SECS }
    }

    /// The policy of the watch command: from two seconds up to five minutes.
    #[verifier::when_used_as_spec(spec_standard)]
    pub fn standard() -> (policy: BackoffPolicy)
        ensures
            policy == BackoffPolicy::spec_standard(),
            policy.wf(),
    {
        BackoffPolicy { min_delay: MIN_BACKOFF_SECS, max_delay: MAX_BACKOFF_SECS }
    }

    /// The delay to start from after a successful connection.
    pub fn reset(&self) -> (delay: u64)
        ensures
            delay == self.min_delay,
    {
        self.min_delay
    }

    /// The delay to use after `previous` has been waited out in vain.
    pub fn next(&self, previous: u64) -> (delay: u64)
        ensures
            delay == self.next_delay(previous as int),
    {
        if previous > self.max_delay / 2 {
            self.max_delay
        } else {
            previous * 2
        }
    }
}

/// What a [`BackoffState`] stands for: a policy and the delay that the next
/// failure will announce.
pub struct Backoff {
    pub policy: BackoffPolicy,
    pub current_delay: u64,
}

impl Backoff {
    /// The delay lies within the bounds of a usable policy.
    pub open spec fn wf(self) -> bool {
        &&& self.policy.wf()
        &&& self.policy.min_delay <= self.current_delay <= self.policy.max_delay
    }

    /// The state a session starts from.
    pub open spec fn fresh(policy: BackoffPolicy) -> Backoff {
        Backoff { policy, current_delay: policy.min_delay }
    }

    /// The state after a successful connection: back at the floor.
    pub open spec fn succeeded(self) -> Backoff {
        Backoff { policy: self.policy, current_delay: self.policy.min_delay }
    }

    /// The state after a failed attempt: the delay doubled, up to the
    /// ceiling.
    pub open spec fn failed(self) -> Backoff {
        Backoff {
            policy: self.policy,
            current_delay: self.policy.next_delay(self.current_delay as int) as u64,
        }
    }

    /// The state after `failures` failed attempts in a row.
    pub open spec fn failed_times(self, failures: nat) -> Backoff
        decreases failures,
    {
        if failures == 0 {
            self
        } else {
            self.failed_times((failures - 1) as nat).failed()
        }
    }
}

/// The delay a session currently stands at.
#[derive(Clone, Copy, Debug)]
pub struct BackoffState {
    policy: BackoffPolicy,
    current_delay: u64,
}

impl View for BackoffState {
    type V = Backoff;

    closed spec fn view(&self) -> Backoff {
        Backoff { policy: self.policy, current_delay: self.current_delay }
    }
}

impl BackoffState {
    /// Starts at the floor of `policy`.
    pub fn new(policy: BackoffPolicy) -> (state: BackoffState)
        ensures
            state@ == Backoff::fresh(policy),
    {
        BackoffState { policy, current_delay: policy.reset() }
    }

    /// The bounds this state moves between.
    pub fn policy(&self) -> (policy: BackoffPolicy)
        ensures
            policy == self@.policy,
    {
        self.policy
    }

    /// The delay that the next failure will announce.
    pub fn current_delay(&self) -> (delay: u64)
        ensures
            delay == self@.current_delay,
    {
        self.current_delay
    }

    /// Records a successful connection.
    pub fn on_success(&mut self)
        ensures
            final(self)@ == old(self)@.succeeded(),
    {
        self.current_delay = self.policy.reset();
    }

    /// Records a failed attempt and returns the delay to wait before the
    /// next one.
    pub fn on_failure(&mut self) -> (delay: u64)
        ensures
            delay == old(self)@.current_delay,
            final(self)@ == old(self)@.failed(),
    {
        let delay = self.current_delay;
        self.current_delay = self.policy.next(delay);
        delay
    }
}

/// A delay produced by a usable policy from a delay within its bounds stays
/// within its bounds and never shrinks.
pub proof fn lemma_next_delay_bounded(policy: BackoffPolicy, previous: int)
    requires
        policy.wf(),
        policy.min_delay <= previous <= policy.max_delay,
    ensures
        policy.min_delay <= policy.next_delay(previous) <= policy.max_delay,
        previous <= policy.next_delay(previous),
{
}

/// A delay already at the ceiling stays there.
pub proof fn lemma_next_delay_saturates(policy: BackoffPolicy)
    ensures
        policy.next_delay(policy.max_delay as int) == policy.max_delay,
{
}

/// After any number of failures in a row the delay is the floor doubled
/// once per failure, cut off at the ceiling.
pub proof fn lemma_delay_after_closed_form(policy: BackoffPolicy, failures: nat)
    requires
        policy.wf(),
    ensures
        policy.delay_after(failures) == min(
            policy.min_delay * pow2(failures),
            policy.max_delay as int,
        ),
    decreases failures,
{
    if failures == 0 {
        lemma2_to64();
    } else {
        let earlier = (failures - 1) as nat;
        lemma_delay_after_closed_form(policy, earlier);
        lemma_pow2_unfold(failures);
        let floor = policy.min_delay as int;
        let grown = floor * pow2(earlier);
        assert(floor * pow2(failures) == 2 * grown) by (nonlinear_arith)
            requires
                pow2(failures) == 2 * pow2(earlier),
                grown == floor * pow2(earlier),
        ;
    }
}

/// Neither a success nor a failure takes the delay out of the policy's
/// bounds.
pub proof fn lemma_backoff_stays_bounded(backoff: Backoff)
    requires
        backoff.wf(),
    ensures
        backoff.succeeded().wf(),
        backoff.failed().wf(),
        backoff.failed().current_delay >= backoff.current_delay,
{
    lemma_next_delay_bounded(backoff.policy, backoff.current_delay as int);
}

/// Starting from the floor, the failure that follows `failures` earlier
/// ones announces the floor doubled `failures` times, cut off at the
/// ceiling.
pub proof fn lemma_failures_in_a_row(policy: BackoffPolicy, failures: nat)
    requires
        policy.wf(),
    ensures
        Backoff::fresh(policy).failed_times(failures).wf(),
        Backoff::fresh(policy).failed_times(failures).policy == policy,
        Backoff::fresh(policy).failed_times(failures).current_delay == policy.delay_after(failures),
        policy.delay_after(failures) == min(
            policy.min_delay * pow2(failures),
            policy.max_delay as int,
        ),
    decreases failures,
{
    lemma_delay_after_closed_form(policy, failures);
    if failures > 0 {
        let earlier = (failures - 1) as nat;
        lemma_failures_in_a_row(policy, earlier);
        lemma_backoff_stays_bounded(Backoff::fresh(policy).failed_times(earlier));
    }
}

} // verus!
