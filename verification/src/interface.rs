//! Requests over NATS under their policies: how many may be under way, when they are refused, and
//! when they are tried again.
//!
//! Sending, waiting and the clock live outside this module: it is told what happened and decides
//! what follows. Times are nanoseconds on a clock that does not run backwards.

use crate::errors::TransportError;
use crate::modes::{ActorInferenceMode, ActorTrainingDataMode, ClientModes};
use crate::nats::{NatsConnectionManager, NatsOperation, NatsOps, NatsServer};
use crate::nats_policies::{CircuitBreaker, NatsPolicyConfig};
use crate::policies::{
    inference_numbers, scaling_numbers, training_numbers, BackpressureController,
    BackpressurePermit, CircuitState, PolicyNumbers,
};
use crate::registry::{pool_error_chars, refuses_reservation, reserve_slot, IdSlot};
use active_uuid_registry::UuidPoolError;
use vstd::prelude::*;

verus! {

/// The context under which the identifier of a transport is registered.
pub const NATS_CLIENT_CONTEXT: &'static str = "nats-client";

/// The policies that there are.
#[derive(Clone, Copy, Debug, PartialEq, Eq, Structural)]
pub enum ProtocolKind {
    Inference,
    Training,
    Scaling,
}

impl ProtocolKind {
    /// What is reported when the policy is not in force.
    pub open spec fn spec_missing(self) -> Seq<char> {
        match self {
            ProtocolKind::Inference => "Inference protocol not initialized"@,
            ProtocolKind::Training => "Training protocol not initialized"@,
            ProtocolKind::Scaling => "Scaling protocol not initialized"@,
        }
    }

    fn missing(&self) -> (r: String)
        ensures
            r@ == self.spec_missing(),
    {
        match self {
            ProtocolKind::Inference => "Inference protocol not initialized".to_owned(),
            ProtocolKind::Training => "Training protocol not initialized".to_owned(),
            ProtocolKind::Scaling => "Scaling protocol not initialized".to_owned(),
        }
    }

    /// The policy that a request to a server is under.
    pub open spec fn spec_of(operation: NatsOperation) -> ProtocolKind {
        match operation.spec_server() {
            NatsServer::Inference => ProtocolKind::Inference,
            NatsServer::Training => ProtocolKind::Training,
        }
    }

    /// The policy that a request to a server is under.
    pub fn of(operation: NatsOperation) -> (r: ProtocolKind)
        ensures
            r == Self::spec_of(operation),
    {
        match operation.server() {
            NatsServer::Inference => ProtocolKind::Inference,
            NatsServer::Training => ProtocolKind::Training,
        }
    }
}

/// How an attempt ended.
pub enum AttemptOutcome {
    Succeeded,
    Failed { cause: String },
    TimedOut { description: String },
}

impl AttemptOutcome {
    /// Why the attempt failed.
    pub open spec fn cause(self) -> Seq<char> {
        match self {
            AttemptOutcome::Succeeded => Seq::empty(),
            AttemptOutcome::Failed { cause } => cause@,
            AttemptOutcome::TimedOut { description } => "timeout: "@ + description@,
        }
    }
}

/// What follows an attempt.
pub enum RetryAction {
    Done,
    /// Pause as the policy says for this attempt, then try again.
    PauseThenRetry { attempt: u32 },
    GiveUp(TransportError),
}

/// Whether a request may start.
pub enum Admission {
    /// As many requests are under way as may be: ask again when one has ended.
    Wait,
    Begin(BackpressurePermit),
}

/// The attempt that follows a failed one, if any does.
pub open spec fn next_attempt(max_attempts: u32, attempts: u32) -> Option<u32> {
    if attempts < max_attempts {
        Some((attempts + 1) as u32)
    } else {
        None
    }
}

/// How many attempts are made in all from this one on if each fails.
pub open spec fn attempts_made(max_attempts: u32, attempts: u32) -> nat
    decreases max_attempts - attempts,
{
    if attempts < max_attempts {
        1 + attempts_made(max_attempts, (attempts + 1) as u32)
    } else {
        1
    }
}

/// The count with which a request that always fails is given up.
pub open spec fn given_up_at(max_attempts: u32, attempts: u32) -> u32
    decreases max_attempts - attempts,
{
    if attempts < max_attempts {
        given_up_at(max_attempts, (attempts + 1) as u32)
    } else {
        attempts
    }
}

/// A request that always fails is tried once and then as often again as its policy says, and the
/// count that is reported is that of the policy.
pub proof fn law_attempts_are_bounded(max_attempts: u32, attempts: u32)
    requires
        attempts <= max_attempts,
    ensures
        attempts_made(max_attempts, attempts) == max_attempts - attempts + 1,
        given_up_at(max_attempts, attempts) == max_attempts,
    decreases max_attempts - attempts,
{
    if attempts < max_attempts {
        law_attempts_are_bounded(max_attempts, (attempts + 1) as u32);
    }
}

/// A policy in force.
pub struct NatsProtocol {
    pub circuit_breaker: CircuitBreaker,
    pub backpressure: BackpressureController,
    pub config: NatsPolicyConfig,
}

impl NatsProtocol {
    /// No more permits are available than there are.
    pub open spec fn wf(self) -> bool {
        self.backpressure.wf()
    }

    /// Nothing has been asked of the policy yet.
    pub open spec fn fresh(self) -> bool {
        &&& self.circuit_breaker == (CircuitBreaker {
            state: CircuitState::Closed,
            failure_count: 0,
            failure_threshold: self.config.circuit_breaker_threshold,
            open_duration: self.config.circuit_breaker_duration,
            opened_at: None,
        })
        &&& self.backpressure == (BackpressureController {
            available: self.config.max_concurrent_requests,
            max_concurrent: self.config.max_concurrent_requests,
        })
    }

    /// Puts a policy into force.
    pub fn new(config: NatsPolicyConfig) -> (r: Self)
        ensures
            r.wf(),
            r.config == config,
            r.fresh(),
    {
        let circuit_breaker = CircuitBreaker::new(
            config.circuit_breaker_threshold,
            config.circuit_breaker_duration,
        );
        let backpressure = BackpressureController::new(config.max_concurrent_requests);
        NatsProtocol { circuit_breaker, backpressure, config }
    }

    /// What asking to start a request does.
    pub open spec fn admits(self, now: u64, after: Self, r: Result<Admission, TransportError>) -> bool {
        let (open, breaker) = self.circuit_breaker.spec_is_open(now);
        if self.backpressure.available == 0 {
            after == self && r == Ok::<Admission, TransportError>(Admission::Wait)
        } else if open {
            &&& after == (NatsProtocol { circuit_breaker: breaker, ..self })
            &&& r == Err::<Admission, TransportError>(TransportError::CircuitOpen)
        } else {
            &&& after == (NatsProtocol {
                circuit_breaker: breaker,
                backpressure: BackpressureController {
                    available: (self.backpressure.available - 1) as usize,
                    ..self.backpressure
                },
                ..self
            })
            &&& r matches Ok(Admission::Begin(_))
        }
    }

    /// Asks to start a request. It waits while too many are under way, and is refused while the
    /// circuit is open.
    pub fn begin(&mut self, now: u64) -> (r: Result<Admission, TransportError>)
        requires
            old(self).wf(),
        ensures
            final(self).wf(),
            old(self).admits(now, *final(self), r),
    {
        if self.backpressure.available_permits() == 0 {
            return Ok(Admission::Wait);
        }
        if self.circuit_breaker.is_open(now) {
            return Err(TransportError::CircuitOpen);
        }
        match self.backpressure.acquire() {
            Some(permit) => Ok(Admission::Begin(permit)),
            None => Ok(Admission::Wait),
        }
    }

    /// The policy with one more permit available.
    pub open spec fn released(self) -> Self {
        NatsProtocol {
            backpressure: BackpressureController {
                available: (self.backpressure.available + 1) as usize,
                ..self.backpressure
            },
            ..self
        }
    }

    /// Gives the permit of a request back.
    pub fn finish(&mut self, permit: BackpressurePermit)
        requires
            old(self).wf(),
            old(self).backpressure.outstanding() > 0,
        ensures
            final(self).wf(),
            *final(self) == old(self).released(),
    {
        self.backpressure.release(permit);
    }

    /// What follows an attempt, after `attempts` that were made again.
    pub open spec fn follows(
        self,
        attempts: u32,
        outcome: AttemptOutcome,
        now: u64,
        after: Self,
        r: RetryAction,
    ) -> bool {
        if outcome is Succeeded {
            &&& r is Done
            &&& after == (NatsProtocol { circuit_breaker: self.circuit_breaker.succeeded(), ..self })
        } else {
            &&& after == (NatsProtocol { circuit_breaker: self.circuit_breaker.failed(now), ..self })
            &&& match next_attempt(self.config.retry_policy.max_attempts, attempts) {
                Some(attempt) => r == (RetryAction::PauseThenRetry { attempt }),
                None => r matches RetryAction::GiveUp(
                    TransportError::MaxRetriesExceeded { cause, attempts: made },
                ) && cause@ == outcome.cause() && made == attempts,
            }
        }
    }

    /// Records how an attempt ended and decides what follows, after `attempts` that were made
    /// again.
    pub fn after_attempt(&mut self, attempts: u32, outcome: AttemptOutcome, now: u64) -> (r:
        RetryAction)
        ensures
            old(self).wf() ==> final(self).wf(),
            old(self).follows(attempts, outcome, now, *final(self), r),
    {
        let cause: String = match outcome {
            AttemptOutcome::Succeeded => {
                self.circuit_breaker.record_success();
                return RetryAction::Done;
            },
            AttemptOutcome::Failed { cause } => cause,
            AttemptOutcome::TimedOut { description } => {
                let mut cause = "timeout: ".to_owned();
                cause.append(description.as_str());
                cause
            },
        };
        self.circuit_breaker.record_failure(now);
        if attempts < self.config.retry_policy.max_attempts {
            RetryAction::PauseThenRetry { attempt: attempts + 1 }
        } else {
            RetryAction::GiveUp(TransportError::MaxRetriesExceeded { cause, attempts })
        }
    }
}

/// A client's requests over NATS.
pub struct NatsInterface {
    pub ops: NatsOps,
    pub connections: NatsConnectionManager,
    pub inference_protocol: Option<NatsProtocol>,
    pub training_protocol: Option<NatsProtocol>,
    pub scaling_protocol: Option<NatsProtocol>,
}

/// Whether a policy is in force exactly if it should be, fresh and with these numbers.
pub open spec fn policy_in_force(wanted: bool, p: Option<NatsProtocol>, n: PolicyNumbers) -> bool {
    &&& p is Some <==> wanted
    &&& p matches Some(protocol) ==> protocol.wf() && protocol.fresh() && protocol.config.has(n)
}

impl NatsInterface {
    /// The connections and the policies are in order.
    pub open spec fn wf(self) -> bool {
        &&& self.connections.wf()
        &&& self.inference_protocol matches Some(p) ==> p.wf()
        &&& self.training_protocol matches Some(p) ==> p.wf()
        &&& self.scaling_protocol matches Some(p) ==> p.wf()
    }

    /// One of the policies.
    pub open spec fn protocol(self, kind: ProtocolKind) -> Option<NatsProtocol> {
        match kind {
            ProtocolKind::Inference => self.inference_protocol,
            ProtocolKind::Training => self.training_protocol,
            ProtocolKind::Scaling => self.scaling_protocol,
        }
    }

    /// One of the policies replaced.
    pub open spec fn with_protocol(self, kind: ProtocolKind, p: NatsProtocol) -> Self {
        match kind {
            ProtocolKind::Inference => NatsInterface { inference_protocol: Some(p), ..self },
            ProtocolKind::Training => NatsInterface { training_protocol: Some(p), ..self },
            ProtocolKind::Scaling => NatsInterface { scaling_protocol: Some(p), ..self },
        }
    }

    /// The state of a client that has made no request yet, under these modes.
    pub open spec fn starts(self, client_namespace: Seq<char>, modes: ClientModes) -> bool {
        let inference = modes.actor_inference_mode.spec_uses_server();
        let training = modes.actor_training_data_mode.spec_is_online();
        &&& self.ops.transport_namespace@ == client_namespace
        &&& self.ops.transport_context@ == NATS_CLIENT_CONTEXT@
        &&& self.connections.client_namespace@ == client_namespace
        &&& self.connections.inference_client is None
        &&& self.connections.inference_address_fingerprint is None
        &&& self.connections.training_client is None
        &&& self.connections.training_jetstream_context is None
        &&& self.connections.training_address_fingerprint is None
        &&& !self.connections.shutting_down
        &&& forall|id: u128| !self.connections.listeners.registered(id)
        &&& policy_in_force(inference, self.inference_protocol, inference_numbers())
        &&& policy_in_force(training, self.training_protocol, training_numbers())
        &&& policy_in_force(inference || training, self.scaling_protocol, scaling_numbers())
    }

    /// What comes of making the requests of a client possible, from what came of registering an
    /// identifier for it.
    pub open spec fn opens(
        reserved: Result<u128, UuidPoolError>,
        client_namespace: Seq<char>,
        modes: ClientModes,
        r: Result<Self, TransportError>,
    ) -> bool {
        match reserved {
            Ok(_) => r matches Ok(interface) && interface.wf() && interface.starts(
                client_namespace,
                modes,
            ),
            Err(e) => r == Err::<Self, TransportError>(TransportError::UuidPoolError(e)),
        }
    }

    /// Makes the requests of a client possible if an identifier could be registered for it.
    pub fn opened(
        reserved: Result<u128, UuidPoolError>,
        client_namespace: &str,
        modes: &ClientModes,
    ) -> (r: Result<Self, TransportError>)
        ensures
            Self::opens(reserved, client_namespace@, *modes, r),
    {
        match reserved {
            Err(e) => Err(TransportError::UuidPoolError(e)),
            Ok(_) => Ok(Self::for_modes(client_namespace, modes)),
        }
    }

    /// Where the identifier of a NATS client is reserved.
    pub fn client_slot(client_namespace: &str) -> (r: IdSlot)
        ensures
            r.reads(client_namespace@, NATS_CLIENT_CONTEXT@, 42, 100),
    {
        IdSlot {
            namespace: client_namespace.to_owned(),
            context: NATS_CLIENT_CONTEXT.to_owned(),
            base: 42,
            max_retries: 100,
        }
    }

    /// Makes the requests of a client possible once an identifier could be registered for it.
    /// Whether one is found depends on chance and on the registry.
    pub fn new(client_namespace: &str, modes: &ClientModes) -> (r: Result<Self, TransportError>)
        ensures
            match r {
                Ok(interface) => interface.wf() && interface.starts(client_namespace@, *modes),
                Err(e) => e matches TransportError::UuidPoolError(why) && refuses_reservation(
                    client_namespace@,
                    100,
                    pool_error_chars(why),
                ),
            },
    {
        let slot = Self::client_slot(client_namespace);
        let reserved = reserve_slot(&slot);
        Self::opened(reserved, client_namespace, modes)
    }

    /// The state of a client that has made no request yet.
    pub fn for_modes(client_namespace: &str, modes: &ClientModes) -> (r: Self)
        ensures
            r.wf(),
            r.starts(client_namespace@, *modes),
    {
        let inference_protocol = match modes.actor_inference_mode {
            ActorInferenceMode::Local(_) => None,
            _ => Some(NatsProtocol::new(NatsPolicyConfig::for_inference())),
        };
        let training_protocol = match modes.actor_training_data_mode {
            ActorTrainingDataMode::Online(_) => Some(
                NatsProtocol::new(NatsPolicyConfig::for_training()),
            ),
            ActorTrainingDataMode::OnlineWithFiles(_, _) => Some(
                NatsProtocol::new(NatsPolicyConfig::for_training()),
            ),
            ActorTrainingDataMode::OnlineWithMemory(_) => Some(
                NatsProtocol::new(NatsPolicyConfig::for_training()),
            ),
            _ => None,
        };
        let scaling_protocol = match (
            &modes.actor_inference_mode,
            &modes.actor_training_data_mode,
        ) {
            (ActorInferenceMode::Local(_), ActorTrainingDataMode::Disabled) => None,
            (ActorInferenceMode::Local(_), ActorTrainingDataMode::OfflineWithFiles(_)) => None,
            (ActorInferenceMode::Local(_), ActorTrainingDataMode::OfflineWithMemory) => None,
            _ => Some(NatsProtocol::new(NatsPolicyConfig::for_scaling())),
        };
        NatsInterface {
            ops: NatsOps::new(client_namespace.to_owned(), NATS_CLIENT_CONTEXT.to_owned()),
            connections: NatsConnectionManager::new(client_namespace.to_owned()),
            inference_protocol,
            training_protocol,
            scaling_protocol,
        }
    }

    /// Whether an error says that a policy is not in force.
    pub open spec fn not_initialized(kind: ProtocolKind, e: TransportError) -> bool {
        e matches TransportError::InvalidState(m) && m@ == kind.spec_missing()
    }

    /// Asks to start a request under a policy.
    pub fn begin(&mut self, kind: ProtocolKind, now: u64) -> (r: Result<Admission, TransportError>)
        requires
            old(self).wf(),
        ensures
            final(self).wf(),
            match old(self).protocol(kind) {
                None => *final(self) == *old(self) && (r matches Err(e) && Self::not_initialized(
                    kind,
                    e,
                )),
                Some(p) => {
                    &&& final(self).protocol(kind) matches Some(q)
                    &&& *final(self) == old(self).with_protocol(kind, q)
                    &&& p.admits(now, q, r)
                },
            },
    {
        let slot = match kind {
            ProtocolKind::Inference => &mut self.inference_protocol,
            ProtocolKind::Training => &mut self.training_protocol,
            ProtocolKind::Scaling => &mut self.scaling_protocol,
        };
        match slot {
            None => Err(TransportError::InvalidState(kind.missing())),
            Some(protocol) => protocol.begin(now),
        }
    }

    /// Records how an attempt under a policy ended and decides what follows.
    pub fn after_attempt(
        &mut self,
        kind: ProtocolKind,
        attempts: u32,
        outcome: AttemptOutcome,
        now: u64,
    ) -> (r: RetryAction)
        requires
            old(self).wf(),
        ensures
            final(self).wf(),
            match old(self).protocol(kind) {
                None => *final(self) == *old(self) && (r matches RetryAction::GiveUp(e)
                    && Self::not_initialized(kind, e)),
                Some(p) => {
                    &&& final(self).protocol(kind) matches Some(q)
                    &&& *final(self) == old(self).with_protocol(kind, q)
                    &&& p.follows(attempts, outcome, now, q, r)
                },
            },
    {
        let slot = match kind {
            ProtocolKind::Inference => &mut self.inference_protocol,
            ProtocolKind::Training => &mut self.training_protocol,
            ProtocolKind::Scaling => &mut self.scaling_protocol,
        };
        match slot {
            None => RetryAction::GiveUp(TransportError::InvalidState(kind.missing())),
            Some(protocol) => protocol.after_attempt(attempts, outcome, now),
        }
    }

    /// Gives the permit of a request under a policy back.
    pub fn finish(&mut self, kind: ProtocolKind, permit: BackpressurePermit)
        requires
            old(self).wf(),
            old(self).protocol(kind) matches Some(p) && p.backpressure.outstanding() > 0,
        ensures
            final(self).wf(),
            final(self).protocol(kind) is Some,
            *final(self) == old(self).with_protocol(kind, final(self).protocol(kind)->0),
            final(self).protocol(kind)->0 == old(self).protocol(kind)->0.released(),
    {
        let slot = match kind {
            ProtocolKind::Inference => &mut self.inference_protocol,
            ProtocolKind::Training => &mut self.training_protocol,
            ProtocolKind::Scaling => &mut self.scaling_protocol,
        };
        if let Some(protocol) = slot {
            protocol.finish(permit);
        }
    }

    /// Which servers a round of a scaling request goes to: to those whose policy is in force.
    pub fn scaling_round(&self) -> (r: (bool, bool))
        ensures
            r == (self.inference_protocol is Some, self.training_protocol is Some),
    {
        (self.inference_protocol.is_some(), self.training_protocol.is_some())
    }

    /// Asks to start listening for models. Only the circuit of the training policy stands against
    /// it; while the transport shuts down there is nothing to listen for.
    pub fn begin_listening(&mut self, now: u64, shutting_down: bool) -> (r: Result<
        bool,
        TransportError,
    >)
        requires
            old(self).wf(),
        ensures
            final(self).wf(),
            match old(self).training_protocol {
                None => *final(self) == *old(self) && (r matches Err(e) && Self::not_initialized(
                    ProtocolKind::Training,
                    e,
                )),
                Some(p) => {
                    let (open, breaker) = p.circuit_breaker.spec_is_open(now);
                    &&& *final(self) == old(self).with_protocol(
                        ProtocolKind::Training,
                        NatsProtocol { circuit_breaker: breaker, ..p },
                    )
                    &&& r == (if open {
                        Err::<bool, TransportError>(TransportError::CircuitOpen)
                    } else {
                        Ok::<bool, TransportError>(!shutting_down)
                    })
                },
            },
    {
        match &mut self.training_protocol {
            None => Err(TransportError::InvalidState(ProtocolKind::Training.missing())),
            Some(protocol) => {
                if protocol.circuit_breaker.is_open(now) {
                    return Err(TransportError::CircuitOpen);
                }
                Ok(!shutting_down)
            },
        }
    }

    /// Records how listening ended and decides what follows. A failure while the transport shuts
    /// down counts as the end of listening.
    pub fn after_listening(
        &mut self,
        attempts: u32,
        failure: Option<String>,
        shutting_down: bool,
        now: u64,
    ) -> (r: RetryAction)
        requires
            old(self).wf(),
        ensures
            final(self).wf(),
            match old(self).training_protocol {
                None => *final(self) == *old(self) && (r matches RetryAction::GiveUp(e)
                    && Self::not_initialized(ProtocolKind::Training, e)),
                Some(p) => {
                    let outcome = match failure {
                        Some(cause) => if shutting_down {
                            AttemptOutcome::Succeeded
                        } else {
                            AttemptOutcome::Failed { cause }
                        },
                        None => AttemptOutcome::Succeeded,
                    };
                    &&& final(self).training_protocol matches Some(q)
                    &&& *final(self) == old(self).with_protocol(ProtocolKind::Training, q)
                    &&& p.follows(attempts, outcome, now, q, r)
                },
            },
    {
        let outcome = match failure {
            Some(cause) => {
                if shutting_down {
                    AttemptOutcome::Succeeded
                } else {
                    AttemptOutcome::Failed { cause }
                }
            },
            None => AttemptOutcome::Succeeded,
        };
        self.after_attempt(ProtocolKind::Training, attempts, outcome, now)
    }
}

/// A request on its way: not admitted yet, or admitted with a permit and tried again so many times.
pub struct RequestRun {
    pub kind: ProtocolKind,
    pub permit: Option<BackpressurePermit>,
    pub attempts: u32,
}

/// What happens to a request.
pub enum RequestEvent {
    /// It asks to be admitted, at first or after it had to wait.
    Asked,
    /// An attempt has ended. For a scaling request an attempt is a round over the servers.
    Attempted(AttemptOutcome),
    /// The pause before the next attempt is over.
    Paused,
}

/// What a request does next.
pub enum RequestAction {
    Wait,
    Attempt,
    Pause { attempt: u32 },
    End(Result<(), TransportError>),
}

impl RequestRun {
    /// A request that asks to be admitted under a policy.
    pub fn new(kind: ProtocolKind) -> (r: Self)
        ensures
            r == (RequestRun { kind, permit: None, attempts: 0 }),
    {
        RequestRun { kind, permit: None, attempts: 0 }
    }

    /// Whether an event can happen to the request: only an admitted request makes attempts, and its
    /// permit is among those that are out.
    pub open spec fn expects(self, interface: NatsInterface, event: RequestEvent) -> bool {
        match event {
            RequestEvent::Asked => self.permit is None,
            _ => self.permit is Some && (interface.protocol(self.kind) matches Some(p)
                && p.backpressure.outstanding() > 0),
        }
    }

    /// What an event leads to: what becomes of the request and of its policy, and what is done.
    pub open spec fn leads(
        self,
        p: NatsProtocol,
        event: RequestEvent,
        now: u64,
        after: Self,
        q: NatsProtocol,
        r: RequestAction,
    ) -> bool {
        match event {
            RequestEvent::Asked => exists|admission: Result<Admission, TransportError>|
                {
                    &&& #[trigger] p.admits(now, q, admission)
                    &&& match admission {
                        Ok(Admission::Wait) => r is Wait && after == self,
                        Ok(Admission::Begin(permit)) => r is Attempt && after == (RequestRun {
                            permit: Some(permit),
                            ..self
                        }),
                        Err(e) => r == RequestAction::End(Err(e)) && after == self,
                    }
                },
            RequestEvent::Attempted(outcome) => exists|recorded: NatsProtocol, next: RetryAction|
                {
                    &&& #[trigger] p.follows(self.attempts, outcome, now, recorded, next)
                    &&& match next {
                        RetryAction::PauseThenRetry { attempt } => {
                            &&& r == (RequestAction::Pause { attempt })
                            &&& after == (RequestRun { attempts: attempt, ..self })
                            &&& q == recorded
                        },
                        RetryAction::Done => {
                            &&& r == RequestAction::End(Ok(()))
                            &&& after == (RequestRun { permit: None, ..self })
                            &&& q == recorded.released()
                        },
                        RetryAction::GiveUp(e) => {
                            &&& r == RequestAction::End(Err(e))
                            &&& after == (RequestRun { permit: None, ..self })
                            &&& q == recorded.released()
                        },
                    }
                },
            RequestEvent::Paused => r is Attempt && after == self && q == p,
        }
    }

    /// What an event leads to: what becomes of the request and of all requests over NATS, and what
    /// is done.
    pub open spec fn steps(
        self,
        interface: NatsInterface,
        event: RequestEvent,
        now: u64,
        after: Self,
        interface_after: NatsInterface,
        r: RequestAction,
    ) -> bool {
        match interface.protocol(self.kind) {
            None => {
                &&& interface_after == interface
                &&& after == self
                &&& r matches RequestAction::End(Err(e))
                &&& NatsInterface::not_initialized(self.kind, e)
            },
            Some(p) => {
                &&& interface_after.protocol(self.kind) matches Some(q)
                &&& interface_after == interface.with_protocol(self.kind, q)
                &&& self.leads(p, event, now, after, q, r)
            },
        }
    }

    /// Decides what an event leads to. A request that has ended has given its permit back.
    pub fn step(&mut self, interface: &mut NatsInterface, event: RequestEvent, now: u64) -> (r:
        RequestAction)
        requires
            old(interface).wf(),
            old(self).expects(*old(interface), event),
        ensures
            final(interface).wf(),
            old(self).steps(*old(interface), event, now, *final(self), *final(interface), r),
    {
        match event {
            RequestEvent::Asked => {
                let admission = interface.begin(self.kind, now);
                proof {
                    if let Some(p) = old(interface).protocol(self.kind) {
                        assert(p.admits(now, interface.protocol(self.kind)->0, admission));
                    }
                }
                match admission {
                    Ok(Admission::Wait) => RequestAction::Wait,
                    Ok(Admission::Begin(permit)) => {
                        self.permit = Some(permit);
                        RequestAction::Attempt
                    },
                    Err(e) => RequestAction::End(Err(e)),
                }
            },
            RequestEvent::Attempted(outcome) => {
                let next = interface.after_attempt(self.kind, self.attempts, outcome, now);
                let ghost recorded = interface.protocol(self.kind)->0;
                proof {
                    let p = old(interface).protocol(self.kind)->0;
                    assert(p.follows(self.attempts, outcome, now, recorded, next));
                    assert(recorded.backpressure == p.backpressure);
                }
                match next {
                    RetryAction::PauseThenRetry { attempt } => {
                        self.attempts = attempt;
                        RequestAction::Pause { attempt }
                    },
                    RetryAction::Done => {
                        if let Some(permit) = self.permit.take() {
                            interface.finish(self.kind, permit);
                        }
                        RequestAction::End(Ok(()))
                    },
                    RetryAction::GiveUp(e) => {
                        if let Some(permit) = self.permit.take() {
                            interface.finish(self.kind, permit);
                        }
                        RequestAction::End(Err(e))
                    },
                }
            },
            RequestEvent::Paused => RequestAction::Attempt,
        }
    }
}

/// What came of a round at a server, if the server was in it.
pub type ServerOutcome = Option<Result<(), TransportError>>;

/// The request to one server in a round of a scaling request, and its outcome once it has ended.
pub struct ServerRun {
    pub run: RequestRun,
    pub outcome: ServerOutcome,
}

/// A scaling request on its way: it is under the scaling policy itself, and in each of its rounds
/// there is a request under its own policy to each server that is in force. The requests of a round
/// run side by side.
pub struct ScalingRun {
    pub whole: RequestRun,
    pub inference: Option<ServerRun>,
    pub training: Option<ServerRun>,
}

/// What happens to a scaling request.
pub enum ScalingEvent {
    /// It asks to be admitted, at first or after it had to wait.
    Asked,
    /// Something happened to the request to a server.
    AtServer(NatsServer, RequestEvent),
    /// The outcomes of a round were combined.
    Combined(AttemptOutcome),
    /// The pause before the next round is over.
    Paused,
}

/// What a scaling request does next.
pub enum ScalingAction {
    Wait,
    /// The requests to these servers ask to be admitted.
    StartRound { inference: bool, training: bool },
    /// The request to the server goes on.
    GoOn(RequestAction),
    /// The request to the server has ended; that to the other has not.
    AwaitOther,
    /// The round is over, with these outcomes at the inference and at the training server.
    Combine(ServerOutcome, ServerOutcome),
    Pause { attempt: u32 },
    End(Result<(), TransportError>),
}

/// A request to a server in a round that begins.
pub open spec fn first_run(in_force: bool, kind: ProtocolKind) -> Option<ServerRun> {
    if in_force {
        Some(ServerRun { run: RequestRun { kind, permit: None, attempts: 0 }, outcome: None })
    } else {
        None
    }
}

/// Whether the request to a server runs.
pub open spec fn running(slot: Option<ServerRun>) -> bool {
    slot matches Some(s) && s.outcome is None
}

/// What came of the request to a server.
pub open spec fn outcome_of(slot: Option<ServerRun>) -> ServerOutcome {
    match slot {
        Some(s) => s.outcome,
        None => None,
    }
}

fn start_run(in_force: bool, kind: ProtocolKind) -> (r: Option<ServerRun>)
    ensures
        r == first_run(in_force, kind),
{
    if in_force {
        Some(ServerRun { run: RequestRun::new(kind), outcome: None })
    } else {
        None
    }
}

fn take_outcome(slot: &mut Option<ServerRun>) -> (r: ServerOutcome)
    ensures
        r == outcome_of(*old(slot)),
        *final(slot) is None,
{
    match slot.take() {
        Some(s) => s.outcome,
        None => None,
    }
}

fn is_running(slot: &Option<ServerRun>) -> (r: bool)
    ensures
        r == running(*slot),
{
    match slot {
        Some(s) => s.outcome.is_none(),
        None => false,
    }
}

impl ScalingRun {
    /// A scaling request that asks to be admitted.
    pub fn new() -> (r: Self)
        ensures
            r == (ScalingRun {
                whole: RequestRun { kind: ProtocolKind::Scaling, permit: None, attempts: 0 },
                inference: None,
                training: None,
            }),
    {
        ScalingRun {
            whole: RequestRun::new(ProtocolKind::Scaling),
            inference: None,
            training: None,
        }
    }

    /// The request as a whole is under the scaling policy, and those to servers under theirs.
    pub open spec fn wf(self) -> bool {
        &&& self.whole.kind == ProtocolKind::Scaling
        &&& self.inference matches Some(s) ==> s.run.kind == ProtocolKind::Inference
        &&& self.training matches Some(s) ==> s.run.kind == ProtocolKind::Training
    }

    /// The request to a server.
    pub open spec fn slot(self, server: NatsServer) -> Option<ServerRun> {
        match server {
            NatsServer::Inference => self.inference,
            NatsServer::Training => self.training,
        }
    }

    /// The request to a server replaced.
    pub open spec fn with_slot(self, server: NatsServer, s: ServerRun) -> Self {
        match server {
            NatsServer::Inference => ScalingRun { inference: Some(s), ..self },
            NatsServer::Training => ScalingRun { training: Some(s), ..self },
        }
    }

    /// Whether an event can happen to the request: between rounds to the request as a whole, in a
    /// round to a request to a server that runs.
    pub open spec fn expects(self, interface: NatsInterface, event: ScalingEvent) -> bool {
        let between = self.inference is None && self.training is None;
        match event {
            ScalingEvent::Asked => between && self.whole.expects(interface, RequestEvent::Asked),
            ScalingEvent::Combined(outcome) => between && self.whole.expects(
                interface,
                RequestEvent::Attempted(outcome),
            ),
            ScalingEvent::Paused => between && self.whole.expects(interface, RequestEvent::Paused),
            ScalingEvent::AtServer(server, inner) => running(self.slot(server)) && self.slot(
                server,
            )->0.run.expects(interface, inner),
        }
    }

    /// What the request as a whole does next, and what becomes of it: an attempt is a round over
    /// the servers in force, which is over at once where none is.
    pub open spec fn goes_on(
        whole: RequestRun,
        interface: NatsInterface,
        action: RequestAction,
        after: Self,
        r: ScalingAction,
    ) -> bool {
        let inference = interface.inference_protocol is Some;
        let training = interface.training_protocol is Some;
        let between = ScalingRun { whole, inference: None, training: None };
        match action {
            RequestAction::Wait => after == between && r is Wait,
            RequestAction::Pause { attempt } => after == between && r == (ScalingAction::Pause {
                attempt,
            }),
            RequestAction::End(outcome) => after == between && r == ScalingAction::End(outcome),
            RequestAction::Attempt => {
                &&& after == (ScalingRun {
                    whole,
                    inference: first_run(inference, ProtocolKind::Inference),
                    training: first_run(training, ProtocolKind::Training),
                })
                &&& r == (if inference || training {
                    ScalingAction::StartRound { inference, training }
                } else {
                    ScalingAction::Combine(None, None)
                })
            },
        }
    }

    /// What becomes of a round when the request to one of its servers has gone on or ended.
    pub open spec fn round_goes_on(
        self,
        server: NatsServer,
        run: RequestRun,
        action: RequestAction,
        after: Self,
        r: ScalingAction,
    ) -> bool {
        match action {
            RequestAction::End(outcome) => {
                let ended = self.with_slot(server, ServerRun { run, outcome: Some(outcome) });
                if running(ended.inference) || running(ended.training) {
                    after == ended && r is AwaitOther
                } else {
                    &&& after == (ScalingRun { whole: self.whole, inference: None, training: None })
                    &&& r == ScalingAction::Combine(
                        outcome_of(ended.inference),
                        outcome_of(ended.training),
                    )
                }
            },
            _ => {
                &&& after == self.with_slot(server, ServerRun { run, outcome: None })
                &&& r == ScalingAction::GoOn(action)
            },
        }
    }

    /// What an event leads to: what becomes of the request and of all requests over NATS, and what
    /// is done.
    pub open spec fn leads(
        self,
        interface: NatsInterface,
        event: ScalingEvent,
        now: u64,
        after: Self,
        interface_after: NatsInterface,
        r: ScalingAction,
    ) -> bool {
        match event {
            ScalingEvent::AtServer(server, inner) => exists|run: RequestRun, action: RequestAction|
                {
                    &&& #[trigger] self.slot(server)->0.run.steps(
                        interface,
                        inner,
                        now,
                        run,
                        interface_after,
                        action,
                    )
                    &&& self.round_goes_on(server, run, action, after, r)
                },
            ScalingEvent::Asked => self.whole_leads(
                interface,
                RequestEvent::Asked,
                now,
                after,
                interface_after,
                r,
            ),
            ScalingEvent::Combined(outcome) => self.whole_leads(
                interface,
                RequestEvent::Attempted(outcome),
                now,
                after,
                interface_after,
                r,
            ),
            ScalingEvent::Paused => self.whole_leads(
                interface,
                RequestEvent::Paused,
                now,
                after,
                interface_after,
                r,
            ),
        }
    }

    /// What something that happens to the request as a whole leads to.
    pub open spec fn whole_leads(
        self,
        interface: NatsInterface,
        event: RequestEvent,
        now: u64,
        after: Self,
        interface_after: NatsInterface,
        r: ScalingAction,
    ) -> bool {
        exists|whole: RequestRun, action: RequestAction|
            {
                &&& #[trigger] self.whole.steps(
                    interface,
                    event,
                    now,
                    whole,
                    interface_after,
                    action,
                )
                &&& Self::goes_on(whole, interface, action, after, r)
            }
    }

    fn step_whole(&mut self, interface: &mut NatsInterface, event: RequestEvent, now: u64) -> (r:
        ScalingAction)
        requires
            old(interface).wf(),
            old(self).wf(),
            old(self).inference is None,
            old(self).training is None,
            old(self).whole.expects(*old(interface), event),
        ensures
            final(interface).wf(),
            final(self).wf(),
            old(self).whole_leads(
                *old(interface),
                event,
                now,
                *final(self),
                *final(interface),
                r,
            ),
    {
        let (inference, training) = interface.scaling_round();
        let action = self.whole.step(interface, event, now);
        proof {
            assert(old(self).whole.steps(
                *old(interface),
                event,
                now,
                self.whole,
                *interface,
                action,
            ));
        }
        match action {
            RequestAction::Wait => ScalingAction::Wait,
            RequestAction::Pause { attempt } => ScalingAction::Pause { attempt },
            RequestAction::End(outcome) => ScalingAction::End(outcome),
            RequestAction::Attempt => {
                self.inference = start_run(inference, ProtocolKind::Inference);
                self.training = start_run(training, ProtocolKind::Training);
                if inference || training {
                    ScalingAction::StartRound { inference, training }
                } else {
                    ScalingAction::Combine(None, None)
                }
            },
        }
    }

    fn step_server(
        &mut self,
        interface: &mut NatsInterface,
        server: NatsServer,
        event: RequestEvent,
        now: u64,
    ) -> (r: ScalingAction)
        requires
            old(interface).wf(),
            old(self).wf(),
            old(self).expects(*old(interface), ScalingEvent::AtServer(server, event)),
        ensures
            final(interface).wf(),
            final(self).wf(),
            old(self).leads(
                *old(interface),
                ScalingEvent::AtServer(server, event),
                now,
                *final(self),
                *final(interface),
                r,
            ),
    {
        let taken = match server {
            NatsServer::Inference => self.inference.take(),
            NatsServer::Training => self.training.take(),
        };
        let mut run = match taken {
            Some(s) => s.run,
            None => {
                return ScalingAction::AwaitOther;
            },
        };
        let ghost run_before = run;
        let action = run.step(interface, event, now);
        proof {
            assert(run_before == old(self).slot(server)->0.run);
            assert(run_before.steps(*old(interface), event, now, run, *interface, action));
        }
        match action {
            RequestAction::End(outcome) => {
                let ended = Some(ServerRun { run, outcome: Some(outcome) });
                match server {
                    NatsServer::Inference => {
                        self.inference = ended;
                    },
                    NatsServer::Training => {
                        self.training = ended;
                    },
                }
                if is_running(&self.inference) || is_running(&self.training) {
                    return ScalingAction::AwaitOther;
                }
                let at_inference = take_outcome(&mut self.inference);
                let at_training = take_outcome(&mut self.training);
                ScalingAction::Combine(at_inference, at_training)
            },
            going_on => {
                let slot = Some(ServerRun { run, outcome: None });
                match server {
                    NatsServer::Inference => {
                        self.inference = slot;
                    },
                    NatsServer::Training => {
                        self.training = slot;
                    },
                }
                ScalingAction::GoOn(going_on)
            },
        }
    }

    /// Decides what an event leads to.
    pub fn step(&mut self, interface: &mut NatsInterface, event: ScalingEvent, now: u64) -> (r:
        ScalingAction)
        requires
            old(interface).wf(),
            old(self).wf(),
            old(self).expects(*old(interface), event),
        ensures
            final(interface).wf(),
            final(self).wf(),
            old(self).leads(*old(interface), event, now, *final(self), *final(interface), r),
    {
        match event {
            ScalingEvent::Asked => self.step_whole(interface, RequestEvent::Asked, now),
            ScalingEvent::Combined(outcome) => self.step_whole(
                interface,
                RequestEvent::Attempted(outcome),
                now,
            ),
            ScalingEvent::Paused => self.step_whole(interface, RequestEvent::Paused, now),
            ScalingEvent::AtServer(server, inner) => self.step_server(interface, server, inner, now),
        }
    }
}

/// What happens to the request to a server leaves the scaling policy and the policy of the other
/// server as they are.
pub proof fn law_servers_are_apart(
    before: ScalingRun,
    interface: NatsInterface,
    server: NatsServer,
    event: RequestEvent,
    now: u64,
    after: ScalingRun,
    interface_after: NatsInterface,
    r: ScalingAction,
)
    requires
        before.wf(),
        before.expects(interface, ScalingEvent::AtServer(server, event)),
        before.leads(
            interface,
            ScalingEvent::AtServer(server, event),
            now,
            after,
            interface_after,
            r,
        ),
    ensures
        interface_after.scaling_protocol == interface.scaling_protocol,
        server == NatsServer::Inference ==> interface_after.training_protocol
            == interface.training_protocol,
        server == NatsServer::Training ==> interface_after.inference_protocol
            == interface.inference_protocol,
        after.whole == before.whole,
{
}

/// A round is combined only when no request to a server runs any more, and then with an outcome for
/// each server that was in it and for no other.
pub proof fn law_rounds_are_combined_whole(
    before: ScalingRun,
    interface: NatsInterface,
    server: NatsServer,
    event: RequestEvent,
    now: u64,
    after: ScalingRun,
    interface_after: NatsInterface,
    at_inference: ServerOutcome,
    at_training: ServerOutcome,
)
    requires
        before.wf(),
        before.expects(interface, ScalingEvent::AtServer(server, event)),
        before.leads(
            interface,
            ScalingEvent::AtServer(server, event),
            now,
            after,
            interface_after,
            ScalingAction::Combine(at_inference, at_training),
        ),
    ensures
        at_inference is Some <==> before.inference is Some,
        at_training is Some <==> before.training is Some,
        after.inference is None && after.training is None,
{
}

/// A request that has ended leaves as many permits available as there were before it was admitted.
pub proof fn law_permits_come_back(
    p: NatsProtocol,
    asked_at: u64,
    admitted: NatsProtocol,
    permit: BackpressurePermit,
    attempts: u32,
    outcome: AttemptOutcome,
    ended_at: u64,
    recorded: NatsProtocol,
    next: RetryAction,
)
    requires
        p.wf(),
        p.admits(asked_at, admitted, Ok(Admission::Begin(permit))),
        admitted.follows(attempts, outcome, ended_at, recorded, next),
    ensures
        recorded.released().backpressure == p.backpressure,
{
}

/// A scaling request always has a server to go to: its policy is in force only where one of the
/// others is.
pub proof fn law_scaling_reaches_a_server(i: NatsInterface, client_namespace: Seq<char>, modes: ClientModes)
    requires
        i.starts(client_namespace, modes),
    ensures
        i.scaling_protocol is Some <==> i.inference_protocol is Some || i.training_protocol is Some,
{
}

/// Requests under one policy leave the others as they are.
pub proof fn law_policies_are_apart(
    i: NatsInterface,
    kind: ProtocolKind,
    p: NatsProtocol,
    other: ProtocolKind,
)
    ensures
        i.with_protocol(kind, p).protocol(kind) == Some(p),
        other != kind ==> i.with_protocol(kind, p).protocol(other) == i.protocol(other),
{
}

/// Where the modes give an inference server, each request about inference finds its policy in
/// force: an action, the end of an episode, the model for inference, and the identifiers, the
/// scaling and the shutdown of the inference server.
pub proof fn law_inference_requests_find_their_policy(
    i: NatsInterface,
    client_namespace: Seq<char>,
    modes: ClientModes,
)
    requires
        i.starts(client_namespace, modes),
    ensures
        modes.actor_inference_mode.spec_uses_server() ==> i.inference_protocol is Some,
        modes.actor_inference_mode is Server || modes.actor_inference_mode is ServerOverflow
            ==> i.inference_protocol is Some,
        modes.actor_inference_mode is Local ==> i.inference_protocol is None,
        i.protocol(ProtocolKind::spec_of(NatsOperation::InferenceRequest)) == i.inference_protocol,
        i.protocol(ProtocolKind::spec_of(NatsOperation::FlagLastInference)) == i.inference_protocol,
        i.protocol(ProtocolKind::spec_of(NatsOperation::InferenceModelInit)) == i.inference_protocol,
        i.protocol(ProtocolKind::spec_of(NatsOperation::InferenceClientIds)) == i.inference_protocol,
        i.protocol(ProtocolKind::spec_of(NatsOperation::InferenceScalingWarning)) == i.inference_protocol,
        i.protocol(ProtocolKind::spec_of(NatsOperation::InferenceScalingComplete)) == i.inference_protocol,
        i.protocol(ProtocolKind::spec_of(NatsOperation::InferenceShutdown)) == i.inference_protocol,
{
}

/// Where the modes give a training server, each request about training finds its policy in force:
/// the algorithm, the model, its updates, a trajectory, and the identifiers, the scaling and the
/// shutdown of the training server.
pub proof fn law_training_requests_find_their_policy(
    i: NatsInterface,
    client_namespace: Seq<char>,
    modes: ClientModes,
)
    requires
        i.starts(client_namespace, modes),
    ensures
        modes.actor_training_data_mode.spec_is_online() ==> i.training_protocol is Some,
        modes.actor_training_data_mode is Online || modes.actor_training_data_mode is OnlineWithFiles
            || modes.actor_training_data_mode is OnlineWithMemory ==> i.training_protocol is Some,
        modes.actor_training_data_mode is Disabled
            || modes.actor_training_data_mode is OfflineWithFiles
            || modes.actor_training_data_mode is OfflineWithMemory ==> i.training_protocol is None,
        i.protocol(ProtocolKind::spec_of(NatsOperation::ListenForModel)) == i.training_protocol,
        i.protocol(ProtocolKind::spec_of(NatsOperation::AlgorithmInit)) == i.training_protocol,
        i.protocol(ProtocolKind::spec_of(NatsOperation::ModelHandshake)) == i.training_protocol,
        i.protocol(ProtocolKind::spec_of(NatsOperation::Trajectory)) == i.training_protocol,
        i.protocol(ProtocolKind::spec_of(NatsOperation::TrainingClientIds)) == i.training_protocol,
        i.protocol(ProtocolKind::spec_of(NatsOperation::TrainingScalingWarning)) == i.training_protocol,
        i.protocol(ProtocolKind::spec_of(NatsOperation::TrainingScalingComplete)) == i.training_protocol,
        i.protocol(ProtocolKind::spec_of(NatsOperation::TrainingShutdown)) == i.training_protocol,
{
}

/// A request about one server never counts against the policy of the other: two operations are
/// under one policy exactly if they go to one server, and none is under the scaling policy itself.
pub proof fn law_one_policy_for_one_server(a: NatsOperation, b: NatsOperation)
    ensures
        ProtocolKind::spec_of(a) == ProtocolKind::spec_of(b) <==> a.spec_server() == b.spec_server(),
        ProtocolKind::spec_of(a) != ProtocolKind::Scaling,
{
}

/// The numbers under which a client starts: how many requests to each server may be under way, how
/// many failures in a row open the circuit and for how long, how often a request is tried again,
/// and how long one may take.
pub proof fn law_policies_start_with_their_numbers(
    i: NatsInterface,
    client_namespace: Seq<char>,
    modes: ClientModes,
)
    requires
        i.starts(client_namespace, modes),
    ensures
        i.inference_protocol matches Some(p) ==> {
            &&& p.backpressure.available == 100 && p.backpressure.max_concurrent == 100
            &&& p.circuit_breaker.failure_threshold == 10
            &&& p.circuit_breaker.open_duration == 15_000_000_000
            &&& p.config.retry_policy.max_attempts == 2
            &&& p.config.timeout == 5_000_000_000
        },
        i.training_protocol matches Some(p) ==> {
            &&& p.backpressure.available == 20 && p.backpressure.max_concurrent == 20
            &&& p.circuit_breaker.failure_threshold == 5
            &&& p.circuit_breaker.open_duration == 30_000_000_000
            &&& p.config.retry_policy.max_attempts == 3
            &&& p.config.timeout == 60_000_000_000
        },
        i.scaling_protocol matches Some(p) ==> {
            &&& p.backpressure.available == 5 && p.backpressure.max_concurrent == 5
            &&& p.circuit_breaker.failure_threshold == 3
            &&& p.circuit_breaker.open_duration == 60_000_000_000
            &&& p.config.retry_policy.max_attempts == 5
            &&& p.config.timeout == 120_000_000_000
        },
        i.inference_protocol matches Some(p) ==> p.circuit_breaker.state == CircuitState::Closed
            && p.circuit_breaker.failure_count == 0,
        i.training_protocol matches Some(p) ==> p.circuit_breaker.state == CircuitState::Closed
            && p.circuit_breaker.failure_count == 0,
        i.scaling_protocol matches Some(p) ==> p.circuit_breaker.state == CircuitState::Closed
            && p.circuit_breaker.failure_count == 0,
{
}

/// A client starts under its own namespace, with no connection and no listener.
pub proof fn law_clients_start_unconnected(
    i: NatsInterface,
    client_namespace: Seq<char>,
    modes: ClientModes,
    id: u128,
)
    requires
        i.starts(client_namespace, modes),
    ensures
        i.ops.transport_namespace@ == client_namespace,
        i.ops.transport_context@ == "nats-client"@,
        i.connections.client_namespace@ == client_namespace,
        i.connections.inference_client is None && i.connections.training_client is None,
        i.connections.inference_address_fingerprint is None,
        i.connections.training_address_fingerprint is None,
        i.connections.training_jetstream_context is None,
        !i.connections.shutting_down,
        !i.connections.listeners.registered(id),
{
}

/// A client's requests are possible exactly if an identifier was registered for it; else the
/// registry's refusal is handed on.
pub proof fn law_only_registered_clients_open(
    reserved: Result<u128, UuidPoolError>,
    client_namespace: Seq<char>,
    modes: ClientModes,
    r: Result<NatsInterface, TransportError>,
)
    requires
        NatsInterface::opens(reserved, client_namespace, modes, r),
    ensures
        r is Ok <==> reserved is Ok,
        r matches Err(e) ==> e == TransportError::UuidPoolError(reserved->Err_0),
{
}

/// The report on a missing policy says which it is.
pub proof fn law_missing_policies_are_named(e: TransportError)
    ensures
        NatsInterface::not_initialized(ProtocolKind::Inference, e) ==> (e matches
            TransportError::InvalidState(m) && m@ == "Inference protocol not initialized"@),
        NatsInterface::not_initialized(ProtocolKind::Training, e) ==> (e matches
            TransportError::InvalidState(m) && m@ == "Training protocol not initialized"@),
        NatsInterface::not_initialized(ProtocolKind::Scaling, e) ==> (e matches
            TransportError::InvalidState(m) && m@ == "Scaling protocol not initialized"@),
{
}

/// A request waits exactly while every permit is out. Else it begins, and takes one permit, unless
/// the circuit opened less than its duration ago; then it is refused and takes none.
pub proof fn law_admission_is_decided_by_permits_and_circuit(
    p: NatsProtocol,
    now: u64,
    after: NatsProtocol,
    r: Result<Admission, TransportError>,
)
    requires
        p.wf(),
        p.admits(now, after, r),
    ensures
        r is Ok && r->Ok_0 is Wait <==> p.backpressure.available == 0,
        r is Ok && r->Ok_0 is Wait ==> after == p,
        r is Ok && r->Ok_0 is Begin ==> after.backpressure.available + 1 == p.backpressure.available,
        r matches Err(e) ==> e is CircuitOpen && after.backpressure == p.backpressure
            && p.circuit_breaker.state == CircuitState::Open,
        p.backpressure.available > 0 && p.circuit_breaker.state != CircuitState::Open ==> r is Ok
            && r->Ok_0 is Begin && after.circuit_breaker == p.circuit_breaker,
        p.backpressure.available > 0 && p.circuit_breaker.state == CircuitState::Open ==> (
        p.circuit_breaker.opened_at matches Some(t) ==> (now < t + p.circuit_breaker.open_duration
            && p.circuit_breaker.open_duration > 0 ==> r is Err) && (now >= t
            + p.circuit_breaker.open_duration ==> r is Ok && r->Ok_0 is Begin
            && after.circuit_breaker.state == CircuitState::HalfOpen)),
        after.backpressure.max_concurrent == p.backpressure.max_concurrent,
        after.config == p.config,
        after.circuit_breaker.failure_count == p.circuit_breaker.failure_count,
{
}

/// A success ends a request and closes its circuit. A failure is counted, and the request is tried
/// once more until it has been tried again as often as its policy says; what is then reported is the
/// last cause and how often it was tried again. No attempt takes or gives a permit.
pub proof fn law_failed_attempts_are_counted_and_retried(
    p: NatsProtocol,
    attempts: u32,
    outcome: AttemptOutcome,
    now: u64,
    after: NatsProtocol,
    r: RetryAction,
)
    requires
        p.follows(attempts, outcome, now, after, r),
    ensures
        outcome is Succeeded <==> r is Done,
        outcome is Succeeded ==> after.circuit_breaker.state == CircuitState::Closed
            && after.circuit_breaker.failure_count == 0 && after.circuit_breaker.opened_at is None,
        outcome !is Succeeded && p.circuit_breaker.failure_count < u64::MAX
            ==> after.circuit_breaker.failure_count == p.circuit_breaker.failure_count + 1,
        outcome !is Succeeded && p.circuit_breaker.failure_count + 1
            < p.circuit_breaker.failure_threshold ==> after.circuit_breaker.state
            == p.circuit_breaker.state,
        outcome !is Succeeded && p.circuit_breaker.failure_count < u64::MAX
            && p.circuit_breaker.failure_count + 1 >= p.circuit_breaker.failure_threshold
            ==> after.circuit_breaker.state == CircuitState::Open,
        r matches RetryAction::PauseThenRetry { attempt } ==> attempt == attempts + 1 && attempt
            <= p.config.retry_policy.max_attempts,
        r is GiveUp ==> attempts >= p.config.retry_policy.max_attempts && (r->GiveUp_0 matches
            TransportError::MaxRetriesExceeded { cause, attempts: made } && made == attempts && (
        outcome matches AttemptOutcome::Failed { cause: why } ==> cause@ == why@) && (outcome matches
            AttemptOutcome::TimedOut { description } ==> cause@ == "timeout: "@ + description@)),
        outcome !is Succeeded && attempts < p.config.retry_policy.max_attempts ==> r is PauseThenRetry,
        after.backpressure == p.backpressure,
        after.config == p.config,
        after.circuit_breaker.failure_threshold == p.circuit_breaker.failure_threshold,
        after.circuit_breaker.open_duration == p.circuit_breaker.open_duration,
{
}

/// A request ends well only after an attempt that succeeded. It has a permit exactly while it makes
/// attempts: one is taken when it is admitted, and given back when it ends.
pub proof fn law_requests_hold_a_permit_while_they_run(
    run: RequestRun,
    p: NatsProtocol,
    event: RequestEvent,
    now: u64,
    after: RequestRun,
    q: NatsProtocol,
    r: RequestAction,
)
    requires
        p.wf(),
        event is Asked <==> run.permit is None,
        event !is Asked ==> p.backpressure.outstanding() > 0,
        run.leads(p, event, now, after, q, r),
    ensures
        r == RequestAction::End(Ok(())) ==> event == RequestEvent::Attempted(
            AttemptOutcome::Succeeded,
        ),
        r is Attempt || r is Pause <==> after.permit is Some,
        r is Wait || r is End <==> after.permit is None,
        after.permit is Some && run.permit is None ==> q.backpressure.outstanding()
            == p.backpressure.outstanding() + 1,
        after.permit is None && run.permit is Some ==> q.backpressure.outstanding()
            == p.backpressure.outstanding() - 1,
        after.permit is Some <==> (run.permit is Some && r !is End) || (event is Asked && r is Attempt),
        (after.permit is Some <==> run.permit is Some) ==> q.backpressure.outstanding()
            == p.backpressure.outstanding(),
        r is Wait ==> event is Asked && p.backpressure.available == 0,
        event is Paused ==> r is Attempt && after.attempts == run.attempts && q == p,
        r matches RequestAction::Pause { attempt } ==> after.attempts == attempt && attempt
            == run.attempts + 1,
        event is Asked ==> after.attempts == run.attempts,
        after.kind == run.kind,
        q.config == p.config,
{
}

/// What happens to a request leaves the connections and the policies that it is not under as they
/// are; without its policy it ends at once.
pub proof fn law_requests_touch_their_policy_only(
    run: RequestRun,
    i: NatsInterface,
    event: RequestEvent,
    now: u64,
    after: RequestRun,
    j: NatsInterface,
    r: RequestAction,
)
    requires
        run.steps(i, event, now, after, j, r),
    ensures
        j.connections == i.connections,
        j.ops == i.ops,
        run.kind != ProtocolKind::Inference ==> j.inference_protocol == i.inference_protocol,
        run.kind != ProtocolKind::Training ==> j.training_protocol == i.training_protocol,
        run.kind != ProtocolKind::Scaling ==> j.scaling_protocol == i.scaling_protocol,
        run.kind == ProtocolKind::Inference && i.inference_protocol is None ==> r is End && j == i,
        run.kind == ProtocolKind::Training && i.training_protocol is None ==> r is End && j == i,
        run.kind == ProtocolKind::Scaling && i.scaling_protocol is None ==> r is End && j == i,
        run.kind == ProtocolKind::Inference ==> (i.inference_protocol is Some
            <==> j.inference_protocol is Some),
        run.kind == ProtocolKind::Training ==> (i.training_protocol is Some
            <==> j.training_protocol is Some),
        run.kind == ProtocolKind::Scaling ==> (i.scaling_protocol is Some
            <==> j.scaling_protocol is Some),
{
}

/// A round starts a fresh request to each server whose policy is in force and to no other, and a
/// scaling request ends well only once a round went well.
pub proof fn law_rounds_go_to_the_servers_in_force(
    before: ScalingRun,
    i: NatsInterface,
    event: RequestEvent,
    now: u64,
    after: ScalingRun,
    j: NatsInterface,
    r: ScalingAction,
)
    requires
        before.wf(),
        before.whole_leads(i, event, now, after, j, r),
    ensures
        r matches ScalingAction::StartRound { inference, training } ==> {
            &&& inference == i.inference_protocol is Some
            &&& training == i.training_protocol is Some
            &&& inference || training
            &&& after.inference is Some == inference
            &&& after.training is Some == training
        },
        after.inference matches Some(s) ==> s.outcome is None && s.run.permit is None
            && s.run.attempts == 0 && s.run.kind == ProtocolKind::Inference,
        after.training matches Some(s) ==> s.outcome is None && s.run.permit is None
            && s.run.attempts == 0 && s.run.kind == ProtocolKind::Training,
        r !is StartRound ==> after.inference is None && after.training is None,
        r == ScalingAction::Combine(None, None) ==> i.inference_protocol is None
            && i.training_protocol is None,
        r == ScalingAction::End(Ok(())) ==> event == RequestEvent::Attempted(
            AttemptOutcome::Succeeded,
        ),
        r !is GoOn && r !is AwaitOther,
        event is Paused && i.scaling_protocol is Some ==> r is StartRound || r == ScalingAction::Combine(
            None,
            None,
        ),
{
}

/// While the request to one server of a round has ended and that to the other has not, the other is
/// awaited; a step of one leaves the other as it is.
pub proof fn law_rounds_await_both_servers(
    before: ScalingRun,
    i: NatsInterface,
    event: RequestEvent,
    now: u64,
    after: ScalingRun,
    j: NatsInterface,
    r: ScalingAction,
)
    requires
        before.wf(),
    ensures
        before.inference is Some && before.leads(
            i,
            ScalingEvent::AtServer(NatsServer::Inference, event),
            now,
            after,
            j,
            r,
        ) ==> {
            &&& r is GoOn || r is AwaitOther ==> after.training == before.training
            &&& r is GoOn ==> after.inference is Some && after.inference->0.outcome is None
            &&& r is AwaitOther ==> after.inference is Some && after.inference->0.outcome is Some
                && before.training is Some && before.training->0.outcome is None
            &&& r matches ScalingAction::Combine(_, other) ==> (before.training matches Some(s)
                ==> other == s.outcome) && (before.training is None ==> other is None)
            &&& r is GoOn || r is AwaitOther || r is Combine
        },
        before.training is Some && before.leads(
            i,
            ScalingEvent::AtServer(NatsServer::Training, event),
            now,
            after,
            j,
            r,
        ) ==> {
            &&& r is GoOn || r is AwaitOther ==> after.inference == before.inference
            &&& r is GoOn ==> after.training is Some && after.training->0.outcome is None
            &&& r is AwaitOther ==> after.training is Some && after.training->0.outcome is Some
                && before.inference is Some && before.inference->0.outcome is None
            &&& r matches ScalingAction::Combine(other, _) ==> (before.inference matches Some(s)
                ==> other == s.outcome) && (before.inference is None ==> other is None)
            &&& r is GoOn || r is AwaitOther || r is Combine
        },
{
}

/// Why a request ends badly: it asked while the circuit was open, or its last attempt failed when it
/// had been tried again as often as its policy says; then the last cause and that count are told.
pub proof fn law_requests_end_badly_for_a_reason(
    run: RequestRun,
    p: NatsProtocol,
    event: RequestEvent,
    now: u64,
    after: RequestRun,
    q: NatsProtocol,
    r: RequestAction,
)
    requires
        run.leads(p, event, now, after, q, r),
    ensures
        r matches RequestAction::End(Err(e)) ==> {
            &&& event is Asked ==> e is CircuitOpen && p.circuit_breaker.state == CircuitState::Open
            &&& event matches RequestEvent::Attempted(outcome) ==> {
                &&& run.attempts >= p.config.retry_policy.max_attempts
                &&& e matches TransportError::MaxRetriesExceeded { cause, attempts }
                &&& attempts == run.attempts
                &&& outcome matches AttemptOutcome::Failed { cause: why } ==> cause@ == why@
                &&& outcome matches AttemptOutcome::TimedOut { description } ==> cause@
                    == "timeout: "@ + description@
                &&& outcome !is Succeeded
            }
            &&& event !is Paused
        },
        event matches RequestEvent::Attempted(outcome) ==> {
            &&& outcome is Succeeded <==> r == RequestAction::End(Ok(()))
            &&& outcome !is Succeeded && run.attempts < p.config.retry_policy.max_attempts
                ==> r is Pause
        },
{
}

/// A scaling request as a whole is tried again as any request is: it pauses before the next round,
/// counting the rounds, waits only to be admitted, and ends badly with the reason of its last round.
pub proof fn law_rounds_are_tried_again(
    before: ScalingRun,
    i: NatsInterface,
    event: RequestEvent,
    now: u64,
    after: ScalingRun,
    j: NatsInterface,
    r: ScalingAction,
)
    requires
        before.wf(),
        i.scaling_protocol is Some,
        before.whole_leads(i, event, now, after, j, r),
    ensures
        ({
            let limit = i.scaling_protocol->0.config.retry_policy.max_attempts;
            &&& r matches ScalingAction::Pause { attempt } ==> attempt == before.whole.attempts + 1
                && after.whole.attempts == attempt && attempt <= limit
            &&& r is Wait ==> event is Asked
            &&& event matches RequestEvent::Attempted(outcome) ==> {
                &&& outcome is Succeeded <==> r == ScalingAction::End(Ok(()))
                &&& outcome !is Succeeded && before.whole.attempts < limit ==> r is Pause
                &&& outcome !is Succeeded && before.whole.attempts >= limit ==> (r matches
                    ScalingAction::End(Err(TransportError::MaxRetriesExceeded { cause, attempts }))
                    && attempts == before.whole.attempts && cause@ == outcome.cause())
            }
            &&& event is Asked && r is End ==> r->End_0 is Err && r->End_0->Err_0 is CircuitOpen
        }),
{
}

/// In a round the request to a server does what any request does, and what comes of it is what is
/// combined: it went well at a server only after an attempt there that succeeded.
pub proof fn law_rounds_report_what_came_of_them(
    before: ScalingRun,
    i: NatsInterface,
    server: NatsServer,
    event: RequestEvent,
    now: u64,
    after: ScalingRun,
    j: NatsInterface,
    r: ScalingAction,
)
    requires
        i.wf(),
        before.wf(),
        before.expects(i, ScalingEvent::AtServer(server, event)),
        before.leads(i, ScalingEvent::AtServer(server, event), now, after, j, r),
    ensures
        r matches ScalingAction::GoOn(action) ==> {
            &&& action !is End
            &&& after.slot(server) matches Some(s)
            &&& action is Attempt || action is Pause <==> s.run.permit is Some
            &&& action matches RequestAction::Pause { attempt } ==> s.run.attempts == attempt
            &&& s.run.kind == before.slot(server)->0.run.kind
        },
        server == NatsServer::Inference ==> (r matches ScalingAction::Combine(own, _) ==> own is Some
            && (own->0 is Ok <==> event == RequestEvent::Attempted(AttemptOutcome::Succeeded))),
        server == NatsServer::Training ==> (r matches ScalingAction::Combine(_, own) ==> own is Some
            && (own->0 is Ok <==> event == RequestEvent::Attempted(AttemptOutcome::Succeeded))),
        r is AwaitOther ==> (after.slot(server)->0.outcome->0 is Ok <==> event
            == RequestEvent::Attempted(AttemptOutcome::Succeeded)),
{
}

} // verus!
