//! Circuit breaking and request policies of the ZeroMQ transport.
//!
//! Times are nanoseconds on a clock that does not run backwards.

use crate::policies::{
    CircuitState, PolicyNumbers, RetryPolicy, MILLISECOND, SECOND, default_numbers,
    inference_numbers, scaling_numbers, training_numbers,
};
use crate::numbers::Real;
use vstd::prelude::*;

verus! {

/// Refuses requests for a while once too many in a row have failed.
#[derive(Clone, Copy, Debug, PartialEq, Eq, Structural)]
pub struct CircuitBreaker {
    pub state: CircuitState,
    pub failure_count: u64,
    pub failure_threshold: u64,
    pub open_duration: u64,
    pub opened_at: Option<u64>,
}

impl CircuitBreaker {
    /// The time of opening is known exactly while the circuit is not closed.
    pub open spec fn wf(self) -> bool {
        self.opened_at is None <==> self.state == CircuitState::Closed
    }

    /// Whether the cooldown has passed at the time `now`.
    pub open spec fn cooled_down(self, now: u64) -> bool {
        self.opened_at matches Some(t) && (if now >= t {
            now - t
        } else {
            0
        }) >= self.open_duration
    }

    /// What asking at the time `now` answers, and what it leaves behind.
    pub open spec fn spec_is_open(self, now: u64) -> (bool, CircuitBreaker) {
        match self.state {
            CircuitState::Closed => (false, self),
            CircuitState::Open => if self.cooled_down(now) {
                (false, CircuitBreaker { state: CircuitState::HalfOpen, ..self })
            } else {
                (true, self)
            },
            CircuitState::HalfOpen => (true, self),
        }
    }

    /// The breaker after a success.
    pub open spec fn succeeded(self) -> CircuitBreaker {
        CircuitBreaker {
            state: CircuitState::Closed,
            failure_count: 0,
            opened_at: None,
            ..self
        }
    }

    /// The breaker after a failure at the time `now`. The count wraps round at its end.
    pub open spec fn failed(self, now: u64) -> CircuitBreaker {
        let failures: u64 = if self.failure_count == u64::MAX {
            0
        } else {
            (self.failure_count + 1) as u64
        };
        if failures >= self.failure_threshold && self.state != CircuitState::Open {
            CircuitBreaker {
                state: CircuitState::Open,
                failure_count: failures,
                opened_at: Some(now),
                ..self
            }
        } else {
            CircuitBreaker { failure_count: failures, ..self }
        }
    }

    pub fn new(failure_threshold: u64, open_duration: u64) -> (r: Self)
        ensures
            r == (CircuitBreaker {
                state: CircuitState::Closed,
                failure_count: 0,
                failure_threshold,
                open_duration,
                opened_at: None,
            }),
            r.wf(),
    {
        CircuitBreaker {
            state: CircuitState::Closed,
            failure_count: 0,
            failure_threshold,
            open_duration,
            opened_at: None,
        }
    }

    /// Whether requests are refused at the time `now`. When the cooldown of an open circuit has
    /// passed, the request that asks first is let through as a test; until its outcome is
    /// recorded, all others are refused.
    pub fn is_open(&mut self, now: u64) -> (r: bool)
        ensures
            (r, *final(self)) == old(self).spec_is_open(now),
            old(self).wf() ==> final(self).wf(),
    {
        match self.state {
            CircuitState::Closed => false,
            CircuitState::Open => {
                if let Some(opened_at) = self.opened_at {
                    let elapsed: u64 = if now >= opened_at {
                        now - opened_at
                    } else {
                        0
                    };
                    if elapsed >= self.open_duration {
                        self.state = CircuitState::HalfOpen;
                        return false;
                    }
                }
                true
            },
            CircuitState::HalfOpen => true,
        }
    }

    /// Records that a request succeeded.
    pub fn record_success(&mut self)
        ensures
            *final(self) == old(self).succeeded(),
            final(self).wf(),
    {
        self.failure_count = 0;
        self.state = CircuitState::Closed;
        self.opened_at = None;
    }

    /// Records that a request failed at the time `now`.
    pub fn record_failure(&mut self, now: u64)
        ensures
            *final(self) == old(self).failed(now),
            old(self).wf() ==> final(self).wf(),
    {
        self.failure_count = if self.failure_count == u64::MAX {
            0
        } else {
            self.failure_count + 1
        };
        if self.failure_count >= self.failure_threshold && self.state != CircuitState::Open {
            self.state = CircuitState::Open;
            self.opened_at = Some(now);
        }
    }

    pub fn state(&self) -> (r: CircuitState)
        ensures
            r == self.state,
    {
        self.state
    }

    pub fn failure_count(&self) -> (r: u64)
        ensures
            r == self.failure_count,
    {
        self.failure_count
    }
}

impl Default for CircuitBreaker {
    fn default() -> (r: Self)
        ensures
            r == (CircuitBreaker {
                state: CircuitState::Closed,
                failure_count: 0,
                failure_threshold: 5,
                open_duration: (30 * SECOND) as u64,
                opened_at: None,
            }),
    {
        CircuitBreaker::new(5, 30 * SECOND)
    }
}

/// The breaker after failures at these times, one behind the other.
pub open spec fn after_failures(b: CircuitBreaker, times: Seq<u64>) -> CircuitBreaker
    decreases times.len(),
{
    if times.len() == 0 {
        b
    } else {
        after_failures(b, times.drop_last()).failed(times.last())
    }
}

/// A fresh breaker stays closed until as many requests in a row have failed as the threshold says,
/// and at least one, and opens with the failure that reaches it.
pub proof fn law_opens_at_threshold(threshold: u64, open_duration: u64, times: Seq<u64>)
    requires
        times.len() <= u64::MAX,
    ensures
        ({
            let fresh = CircuitBreaker {
                state: CircuitState::Closed,
                failure_count: 0,
                failure_threshold: threshold,
                open_duration,
                opened_at: None,
            };
            let b = after_failures(fresh, times);
            let limit: int = if threshold == 0 {
                1
            } else {
                threshold as int
            };
            &&& b.failure_count == times.len()
            &&& b.failure_threshold == threshold
            &&& b.open_duration == open_duration
            &&& times.len() < limit ==> b.state == CircuitState::Closed
            &&& times.len() >= limit ==> b.state == CircuitState::Open && b.opened_at == Some(
                times[limit - 1],
            )
        }),
    decreases times.len(),
{
    if times.len() > 0 {
        law_opens_at_threshold(threshold, open_duration, times.drop_last());
    }
}

/// While an open circuit has not cooled down every request is refused and nothing changes.
pub proof fn law_open_circuit_refuses(b: CircuitBreaker, now: u64)
    requires
        b.state == CircuitState::Open,
        !b.cooled_down(now),
    ensures
        b.spec_is_open(now) == (true, b),
{
}

/// After the cooldown exactly one request is let through before an outcome is recorded, however
/// often and whenever it is asked.
pub proof fn law_one_test_request(b: CircuitBreaker, now: u64, later: u64)
    requires
        b.spec_is_open(now).0 == false,
        b.state == CircuitState::Open,
    ensures
        b.spec_is_open(now).1.state == CircuitState::HalfOpen,
        b.spec_is_open(now).1.spec_is_open(later) == (true, b.spec_is_open(now).1),
{
}

/// A success closes the circuit, whatever was recorded before, and forgets all failures.
pub proof fn law_success_closes(b: CircuitBreaker, now: u64)
    ensures
        b.succeeded().state == CircuitState::Closed,
        b.succeeded().failure_count == 0,
        b.succeeded().spec_is_open(now) == (false, b.succeeded()),
{
}

/// The test request decides: its failure opens the circuit anew, provided that failures had
/// reached the threshold.
pub proof fn law_failed_test_reopens(b: CircuitBreaker, now: u64)
    requires
        b.state == CircuitState::HalfOpen,
        b.failure_threshold <= b.failure_count < u64::MAX,
    ensures
        b.failed(now).state == CircuitState::Open,
        b.failed(now).opened_at == Some(now),
{
}

/// What governs requests over ZeroMQ.
#[derive(Debug)]
pub struct ZmqPolicyConfig {
    pub retry_policy: RetryPolicy,
    pub circuit_breaker_threshold: u64,
    pub circuit_breaker_duration: u64,
    pub max_concurrent_requests: usize,
    pub timeout: u64,
}

impl ZmqPolicyConfig {
    /// Whether the policy has these numbers.
    pub open spec fn has(self, n: PolicyNumbers) -> bool {
        &&& self.retry_policy.has(n.retries)
        &&& self.circuit_breaker_threshold == n.threshold
        &&& self.circuit_breaker_duration == n.cooldown
        &&& self.max_concurrent_requests == n.concurrent
        &&& self.timeout == n.timeout
    }

    /// For inference: many short requests.
    pub fn for_inference() -> (r: Self)
        ensures
            r.has(inference_numbers()),
    {
        ZmqPolicyConfig {
            retry_policy: RetryPolicy {
                max_attempts: 2,
                initial_delay: 50 * MILLISECOND,
                max_delay: SECOND,
                backoff_multiplier: Real::of("2"),
                add_jitter: true,
            },
            circuit_breaker_threshold: 10,
            circuit_breaker_duration: 15 * SECOND,
            max_concurrent_requests: 100,
            timeout: 5 * SECOND,
        }
    }

    /// For training: requests may take long.
    pub fn for_training() -> (r: Self)
        ensures
            r.has(training_numbers()),
    {
        ZmqPolicyConfig {
            retry_policy: RetryPolicy::default(),
            circuit_breaker_threshold: 5,
            circuit_breaker_duration: 30 * SECOND,
            max_concurrent_requests: 20,
            timeout: 60 * SECOND,
        }
    }

    /// For scaling: rare requests that should arrive.
    pub fn for_scaling() -> (r: Self)
        ensures
            r.has(scaling_numbers()),
    {
        ZmqPolicyConfig {
            retry_policy: RetryPolicy::aggressive(),
            circuit_breaker_threshold: 3,
            circuit_breaker_duration: 60 * SECOND,
            max_concurrent_requests: 5,
            timeout: 120 * SECOND,
        }
    }
}

impl Default for ZmqPolicyConfig {
    fn default() -> (r: Self)
        ensures
            r.has(default_numbers()),
    {
        ZmqPolicyConfig {
            retry_policy: RetryPolicy::default(),
            circuit_breaker_threshold: 5,
            circuit_breaker_duration: 30 * SECOND,
            max_concurrent_requests: 50,
            timeout: 30 * SECOND,
        }
    }
}

/// An open circuit cools down when as much time has passed as its duration says, and not before; a
/// clock that seems to run backwards counts as no time.
pub proof fn law_circuits_cool_down_in_time(b: CircuitBreaker, now: u64)
    requires
        b.state == CircuitState::Open,
        b.opened_at is Some,
    ensures
        now >= b.opened_at->0 + b.open_duration ==> b.cooled_down(now),
        now < b.opened_at->0 + b.open_duration && b.open_duration > 0 ==> !b.cooled_down(now),
        b.spec_is_open(now).0 <==> !b.cooled_down(now),
        b.spec_is_open(now).1.opened_at == b.opened_at,
        b.spec_is_open(now).1.failure_count == b.failure_count,
{
}

/// Asking, a success and a failure leave the threshold and the duration of a breaker as they are; a
/// failure is counted and never closes a circuit.
pub proof fn law_breakers_keep_their_settings(b: CircuitBreaker, now: u64)
    ensures
        b.spec_is_open(now).1.failure_threshold == b.failure_threshold,
        b.spec_is_open(now).1.open_duration == b.open_duration,
        b.succeeded().failure_threshold == b.failure_threshold,
        b.succeeded().open_duration == b.open_duration,
        b.succeeded().opened_at is None,
        b.failed(now).failure_threshold == b.failure_threshold,
        b.failed(now).open_duration == b.open_duration,
        b.failure_count < u64::MAX ==> b.failed(now).failure_count == b.failure_count + 1,
        b.failed(now).state == CircuitState::Closed ==> b.state == CircuitState::Closed,
        b.state == CircuitState::Open ==> b.failed(now).state == CircuitState::Open
            && b.failed(now).opened_at == b.opened_at,
        b.state == CircuitState::Closed ==> b.spec_is_open(now) == (false, b),
        b.state == CircuitState::HalfOpen ==> b.spec_is_open(now) == (true, b),
{
}

/// A policy that has given numbers has each of them in its place.
pub proof fn law_policies_are_as_given(p: ZmqPolicyConfig, n: PolicyNumbers)
    requires
        p.has(n),
    ensures
        p.retry_policy.max_attempts == n.retries.attempts,
        p.retry_policy.initial_delay == n.retries.initial,
        p.retry_policy.max_delay == n.retries.longest,
        p.retry_policy.backoff_multiplier.text@ == n.retries.multiplier,
        p.retry_policy.add_jitter == n.retries.jitter,
        p.circuit_breaker_threshold == n.threshold,
        p.circuit_breaker_duration == n.cooldown,
        p.max_concurrent_requests == n.concurrent,
        p.timeout == n.timeout,
{
}


} // verus!
