//! How requests to servers are retried, and how many may be under way at once.
//!
//! Spans of time are counted in nanoseconds.

use crate::errors::TransportError;
use crate::numbers::Real;
use vstd::prelude::*;

verus! {

pub const MILLISECOND: u64 = 1000000;

pub const SECOND: u64 = 1000000000;

/// How often a request is tried again, and how long the pauses are: the first pause is the initial
/// delay, each further one is longer by the multiplier, none exceeds the longest delay, and jitter
/// may lengthen a pause by up to a quarter.
#[derive(Debug)]
pub struct RetryPolicy {
    pub max_attempts: u32,
    pub initial_delay: u64,
    pub max_delay: u64,
    pub backoff_multiplier: Real,
    pub add_jitter: bool,
}

impl RetryPolicy {
    /// Whether the policy has these values.
    pub open spec fn reads(
        self,
        max_attempts: u32,
        initial_delay: int,
        max_delay: int,
        multiplier: Seq<char>,
        add_jitter: bool,
    ) -> bool {
        &&& self.max_attempts == max_attempts
        &&& self.initial_delay == initial_delay
        &&& self.max_delay == max_delay
        &&& self.backoff_multiplier.text@ == multiplier
        &&& self.add_jitter == add_jitter
    }

    /// Whether the policy has these numbers.
    pub open spec fn has(self, n: RetryNumbers) -> bool {
        self.reads(n.attempts, n.initial, n.longest, n.multiplier, n.jitter)
    }

    /// A policy that never tries again.
    pub fn no_retries() -> (r: Self)
        ensures
            r.reads(0, 100 * MILLISECOND, 10 * SECOND, "2"@, true),
    {
        RetryPolicy {
            max_attempts: 0,
            initial_delay: 100 * MILLISECOND,
            max_delay: 10 * SECOND,
            backoff_multiplier: Real::of("2"),
            add_jitter: true,
        }
    }

    /// A policy for operations that matter most.
    pub fn aggressive() -> (r: Self)
        ensures
            r.reads(5, 50 * MILLISECOND, 5 * SECOND, "1.5"@, true),
    {
        RetryPolicy {
            max_attempts: 5,
            initial_delay: 50 * MILLISECOND,
            max_delay: 5 * SECOND,
            backoff_multiplier: Real::of("1.5"),
            add_jitter: true,
        }
    }
}

impl Default for RetryPolicy {
    fn default() -> (r: Self)
        ensures
            r.reads(3, 100 * MILLISECOND, 10 * SECOND, "2"@, true),
    {
        RetryPolicy {
            max_attempts: 3,
            initial_delay: 100 * MILLISECOND,
            max_delay: 10 * SECOND,
            backoff_multiplier: Real::of("2"),
            add_jitter: true,
        }
    }
}

impl Clone for RetryPolicy {
    fn clone(&self) -> (r: Self)
        ensures
            r == *self,
    {
        RetryPolicy {
            max_attempts: self.max_attempts,
            initial_delay: self.initial_delay,
            max_delay: self.max_delay,
            backoff_multiplier: self.backoff_multiplier.clone(),
            add_jitter: self.add_jitter,
        }
    }
}

/// The states of a circuit breaker.
#[derive(Clone, Copy, Debug, PartialEq, Eq, Structural)]
pub enum CircuitState {
    /// Requests pass.
    Closed,
    /// Requests are refused.
    Open,
    /// A request is let through to find out whether the server has recovered.
    HalfOpen,
}

/// Limits how many requests are under way at once.
#[derive(Clone, Copy, Debug, PartialEq, Eq, Structural)]
pub struct BackpressureController {
    pub available: usize,
    pub max_concurrent: usize,
}

/// The right to have one request under way. It is to be released when the request has ended.
#[derive(Debug)]
pub struct BackpressurePermit {}

impl BackpressureController {
    /// No more permits are available than there are.
    pub open spec fn wf(self) -> bool {
        self.available <= self.max_concurrent
    }

    /// How many permits are out.
    pub open spec fn outstanding(self) -> int {
        self.max_concurrent - self.available
    }

    pub fn new(max_concurrent: usize) -> (r: Self)
        ensures
            r.wf(),
            r.max_concurrent == max_concurrent,
            r.outstanding() == 0,
    {
        BackpressureController { available: max_concurrent, max_concurrent }
    }

    /// Takes a permit, or tells that one has to be waited for.
    pub fn acquire(&mut self) -> (r: Option<BackpressurePermit>)
        requires
            old(self).wf(),
        ensures
            final(self).wf(),
            final(self).max_concurrent == old(self).max_concurrent,
            r is Some <==> old(self).available > 0,
            r is Some ==> final(self).outstanding() == old(self).outstanding() + 1,
            r is None ==> *final(self) == *old(self),
    {
        if self.available == 0 {
            None
        } else {
            self.available = self.available - 1;
            Some(BackpressurePermit {  })
        }
    }

    /// Takes a permit if one is available.
    pub fn try_acquire(&mut self) -> (r: Result<BackpressurePermit, TransportError>)
        requires
            old(self).wf(),
        ensures
            final(self).wf(),
            final(self).max_concurrent == old(self).max_concurrent,
            r is Ok <==> old(self).available > 0,
            r is Ok ==> final(self).outstanding() == old(self).outstanding() + 1,
            r is Err ==> *final(self) == *old(self) && r == Err::<BackpressurePermit, TransportError>(
                TransportError::BackpressureExceeded,
            ),
    {
        match self.acquire() {
            Some(permit) => Ok(permit),
            None => Err(TransportError::BackpressureExceeded),
        }
    }

    /// Gives a permit back.
    pub fn release(&mut self, permit: BackpressurePermit)
        requires
            old(self).wf(),
            old(self).outstanding() > 0,
        ensures
            final(self).wf(),
            final(self).max_concurrent == old(self).max_concurrent,
            final(self).outstanding() == old(self).outstanding() - 1,
    {
        self.available = self.available + 1;
    }

    pub fn available_permits(&self) -> (r: usize)
        ensures
            r == self.available,
    {
        self.available
    }

    pub fn max_concurrent(&self) -> (r: usize)
        ensures
            r == self.max_concurrent,
    {
        self.max_concurrent
    }
}

/// A permit that is taken and given back leaves the controller as it was.
pub proof fn law_release_undoes_acquire(
    before: BackpressureController,
    between: BackpressureController,
    after: BackpressureController,
)
    requires
        between.max_concurrent == before.max_concurrent,
        between.outstanding() == before.outstanding() + 1,
        after.max_concurrent == between.max_concurrent,
        after.outstanding() == between.outstanding() - 1,
    ensures
        after == before,
{
}

/// What a policy says of retries.
pub struct RetryNumbers {
    pub attempts: u32,
    pub initial: int,
    pub longest: int,
    pub multiplier: Seq<char>,
    pub jitter: bool,
}

/// The numbers of a policy, whichever transport it is for.
pub struct PolicyNumbers {
    pub retries: RetryNumbers,
    pub threshold: int,
    pub cooldown: int,
    pub concurrent: int,
    pub timeout: int,
}

/// Retries as a rule.
pub open spec fn default_retries() -> RetryNumbers {
    RetryNumbers {
        attempts: 3,
        initial: 100 * MILLISECOND,
        longest: 10 * SECOND,
        multiplier: "2"@,
        jitter: true,
    }
}

/// For inference: many short requests.
pub open spec fn inference_numbers() -> PolicyNumbers {
    PolicyNumbers {
        retries: RetryNumbers {
            attempts: 2,
            initial: 50 * MILLISECOND,
            longest: SECOND as int,
            multiplier: "2"@,
            jitter: true,
        },
        threshold: 10,
        cooldown: 15 * SECOND,
        concurrent: 100,
        timeout: 5 * SECOND,
    }
}

/// For training: requests may take long.
pub open spec fn training_numbers() -> PolicyNumbers {
    PolicyNumbers {
        retries: default_retries(),
        threshold: 5,
        cooldown: 30 * SECOND,
        concurrent: 20,
        timeout: 60 * SECOND,
    }
}

/// For scaling: rare requests that should arrive.
pub open spec fn scaling_numbers() -> PolicyNumbers {
    PolicyNumbers {
        retries: RetryNumbers {
            attempts: 5,
            initial: 50 * MILLISECOND,
            longest: 5 * SECOND,
            multiplier: "1.5"@,
            jitter: true,
        },
        threshold: 3,
        cooldown: 60 * SECOND,
        concurrent: 5,
        timeout: 120 * SECOND,
    }
}

/// For everything else.
pub open spec fn default_numbers() -> PolicyNumbers {
    PolicyNumbers {
        retries: default_retries(),
        threshold: 5,
        cooldown: 30 * SECOND,
        concurrent: 50,
        timeout: 30 * SECOND,
    }
}

/// The numbers of the policies: requests for inference are many and short, those for training may
/// take long, and those for scaling are few and are tried most often.
pub proof fn law_policies_have_their_numbers()
    ensures
        inference_numbers().retries.attempts == 2,
        inference_numbers().retries.initial == 50_000_000,
        inference_numbers().retries.longest == 1_000_000_000,
        inference_numbers().retries.multiplier == "2"@,
        inference_numbers().retries.jitter,
        inference_numbers().threshold == 10,
        inference_numbers().cooldown == 15_000_000_000,
        inference_numbers().concurrent == 100,
        inference_numbers().timeout == 5_000_000_000,
        training_numbers().retries.attempts == 3,
        training_numbers().retries.initial == 100_000_000,
        training_numbers().retries.longest == 10_000_000_000,
        training_numbers().retries.multiplier == "2"@,
        training_numbers().retries.jitter,
        training_numbers().threshold == 5,
        training_numbers().cooldown == 30_000_000_000,
        training_numbers().concurrent == 20,
        training_numbers().timeout == 60_000_000_000,
        scaling_numbers().retries.attempts == 5,
        scaling_numbers().retries.initial == 50_000_000,
        scaling_numbers().retries.longest == 5_000_000_000,
        scaling_numbers().retries.multiplier == "1.5"@,
        scaling_numbers().retries.jitter,
        scaling_numbers().threshold == 3,
        scaling_numbers().cooldown == 60_000_000_000,
        scaling_numbers().concurrent == 5,
        scaling_numbers().timeout == 120_000_000_000,
        default_numbers().retries.attempts == 3,
        default_numbers().retries.initial == 100_000_000,
        default_numbers().retries.longest == 10_000_000_000,
        default_numbers().retries.multiplier == "2"@,
        default_numbers().retries.jitter,
        default_numbers().threshold == 5,
        default_numbers().cooldown == 30_000_000_000,
        default_numbers().concurrent == 50,
        default_numbers().timeout == 30_000_000_000,
        default_retries().attempts == 3,
        default_retries().initial == 100_000_000,
        default_retries().longest == 10_000_000_000,
        default_retries().multiplier == "2"@,
        default_retries().jitter,
{
}

/// The controller of a policy has a permit for each request that may be under way: those that are
/// out and those that are available make up them all.
pub proof fn law_permits_are_out_or_available(c: BackpressureController)
    requires
        c.wf(),
    ensures
        c.outstanding() + c.available == c.max_concurrent,
        0 <= c.outstanding() <= c.max_concurrent,
        c.outstanding() == c.max_concurrent <==> c.available == 0,
{
}

/// A policy for retries that has given numbers has each of them in its place.
pub proof fn law_retries_are_as_given(p: RetryPolicy, n: RetryNumbers)
    requires
        p.has(n),
    ensures
        p.max_attempts == n.attempts,
        p.initial_delay == n.initial,
        p.max_delay == n.longest,
        p.backoff_multiplier.text@ == n.multiplier,
        p.add_jitter == n.jitter,
{
}

} // verus!
