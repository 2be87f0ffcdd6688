//! Requests over NATS: the connections that are kept, the bodies that are sent and what replies
//! mean.
//!
//! Connections live outside this module; here each is known by a token.

use crate::entries::{own_colon_entries, own_colon_list};
use crate::errors::TransportError;
use crate::ids::{big_endian, uuid_chars, uuid_from_bytes, uuid_text};
use crate::listeners::ModelListeners;
use crate::messages::{RoutedMessage, RoutedPayload, RoutingProtocol};
use crate::modes::ModelMode;
use crate::nats_payloads::{
    bundle_read, decode_broadcast, decode_bytes, decoded_broadcast,
    decoded_bytes, encode_bundle, encode_bytes, encode_head, encode_text, encode_text_bytes,
    encode_triples, encoded_bundle, encoded_bytes, encoded_head, encoded_text, encoded_text_bytes,
    encoded_triples, head_texts, holds_bundle, json_field, outcome, read_bundle, read_json_field, triples,
    ModelFilesBundle, PayloadHead,
};
use crate::registry::IdEntry;
use crate::text::{
    decimal, decimal_text, joined, lossy_utf8, parse_i64, parsed_i64, read_utf8_lossy, trim_text,
    trimmed,
};
use vstd::prelude::*;
use vstd::std_specs::hash::DefaultHasherAdditionalSpecFns;

verus! {

/// The operations over NATS.
#[derive(Clone, Copy, Debug, PartialEq, Eq, Structural)]
pub enum NatsOperation {
    InferenceRequest,
    FlagLastInference,
    InferenceModelInit,
    InferenceClientIds,
    InferenceScalingWarning,
    InferenceScalingComplete,
    InferenceShutdown,
    ListenForModel,
    AlgorithmInit,
    ModelHandshake,
    Trajectory,
    TrainingClientIds,
    TrainingScalingWarning,
    TrainingScalingComplete,
    TrainingShutdown,
}

/// Why routers are scaled.
#[derive(Clone, Copy, Debug, PartialEq, Eq, Structural)]
pub enum ScalingOperation {
    ScaleOut,
    ScaleIn,
}

impl ScalingOperation {
    /// The name of the operation.
    pub open spec fn spec_name(self) -> Seq<char> {
        match self {
            ScalingOperation::ScaleOut => "scale_out"@,
            ScalingOperation::ScaleIn => "scale_in"@,
        }
    }

    /// The name of the operation.
    pub fn name(&self) -> (r: String)
        ensures
            r@ == self.spec_name(),
    {
        match self {
            ScalingOperation::ScaleOut => "scale_out".to_owned(),
            ScalingOperation::ScaleIn => "scale_in".to_owned(),
        }
    }
}

/// The two kinds of servers.
#[derive(Clone, Copy, Debug, PartialEq, Eq, Structural)]
pub enum NatsServer {
    Inference,
    Training,
}

impl NatsServer {
    /// The name of the kind.
    pub open spec fn spec_name(self) -> Seq<char> {
        match self {
            NatsServer::Inference => "inference"@,
            NatsServer::Training => "training"@,
        }
    }

    fn name(&self) -> (r: String)
        ensures
            r@ == self.spec_name(),
    {
        match self {
            NatsServer::Inference => "inference".to_owned(),
            NatsServer::Training => "training".to_owned(),
        }
    }

    /// The name of the kind at the start of a sentence.
    pub open spec fn spec_title(self) -> Seq<char> {
        match self {
            NatsServer::Inference => "Inference"@,
            NatsServer::Training => "Training"@,
        }
    }

    fn title(&self) -> (r: String)
        ensures
            r@ == self.spec_title(),
    {
        match self {
            NatsServer::Inference => "Inference".to_owned(),
            NatsServer::Training => "Training".to_owned(),
        }
    }
}

impl NatsOperation {
    /// What the body of the operation is called.
    pub open spec fn spec_payload_name(self) -> Seq<char> {
        match self {
            NatsOperation::InferenceRequest => "inference request"@,
            NatsOperation::FlagLastInference => "flag-last-inference"@,
            NatsOperation::InferenceModelInit => "inference model init request"@,
            NatsOperation::InferenceClientIds => "inference client IDs"@,
            NatsOperation::InferenceScalingWarning => "inference scaling warning"@,
            NatsOperation::InferenceScalingComplete => "inference scaling complete"@,
            NatsOperation::InferenceShutdown => "inference shutdown"@,
            NatsOperation::ListenForModel => "model update broadcast"@,
            NatsOperation::AlgorithmInit => "algorithm init request"@,
            NatsOperation::ModelHandshake => "model handshake request"@,
            NatsOperation::Trajectory => "trajectory publish"@,
            NatsOperation::TrainingClientIds => "training client IDs"@,
            NatsOperation::TrainingScalingWarning => "training scaling warning"@,
            NatsOperation::TrainingScalingComplete => "training scaling complete"@,
            NatsOperation::TrainingShutdown => "training shutdown"@,
        }
    }

    fn payload_name(&self) -> (r: String)
        ensures
            r@ == self.spec_payload_name(),
    {
        match self {
            NatsOperation::InferenceRequest => "inference request".to_owned(),
            NatsOperation::FlagLastInference => "flag-last-inference".to_owned(),
            NatsOperation::InferenceModelInit => "inference model init request".to_owned(),
            NatsOperation::InferenceClientIds => "inference client IDs".to_owned(),
            NatsOperation::InferenceScalingWarning => "inference scaling warning".to_owned(),
            NatsOperation::InferenceScalingComplete => "inference scaling complete".to_owned(),
            NatsOperation::InferenceShutdown => "inference shutdown".to_owned(),
            NatsOperation::ListenForModel => "model update broadcast".to_owned(),
            NatsOperation::AlgorithmInit => "algorithm init request".to_owned(),
            NatsOperation::ModelHandshake => "model handshake request".to_owned(),
            NatsOperation::Trajectory => "trajectory publish".to_owned(),
            NatsOperation::TrainingClientIds => "training client IDs".to_owned(),
            NatsOperation::TrainingScalingWarning => "training scaling warning".to_owned(),
            NatsOperation::TrainingScalingComplete => "training scaling complete".to_owned(),
            NatsOperation::TrainingShutdown => "training shutdown".to_owned(),
        }
    }

    /// What is reported before the subject on which sending failed.
    pub open spec fn spec_failed_on(self) -> Seq<char> {
        match self {
            NatsOperation::InferenceRequest => "NATS request on '"@,
            NatsOperation::FlagLastInference => "NATS publish on '"@,
            NatsOperation::InferenceModelInit => "NATS publish on '"@,
            NatsOperation::InferenceClientIds => "NATS request on '"@,
            NatsOperation::InferenceScalingWarning => "NATS publish on '"@,
            NatsOperation::InferenceScalingComplete => "NATS publish on '"@,
            NatsOperation::InferenceShutdown => "NATS publish on '"@,
            NatsOperation::ListenForModel => "Failed to subscribe to '"@,
            NatsOperation::AlgorithmInit => "NATS publish on '"@,
            NatsOperation::ModelHandshake => "NATS request on '"@,
            NatsOperation::Trajectory => "JetStream publish on '"@,
            NatsOperation::TrainingClientIds => "NATS request on '"@,
            NatsOperation::TrainingScalingWarning => "NATS publish on '"@,
            NatsOperation::TrainingScalingComplete => "NATS publish on '"@,
            NatsOperation::TrainingShutdown => "NATS publish on '"@,
        }
    }

    fn failed_on(&self) -> (r: String)
        ensures
            r@ == self.spec_failed_on(),
    {
        match self {
            NatsOperation::InferenceRequest => "NATS request on '".to_owned(),
            NatsOperation::FlagLastInference => "NATS publish on '".to_owned(),
            NatsOperation::InferenceModelInit => "NATS publish on '".to_owned(),
            NatsOperation::InferenceClientIds => "NATS request on '".to_owned(),
            NatsOperation::InferenceScalingWarning => "NATS publish on '".to_owned(),
            NatsOperation::InferenceScalingComplete => "NATS publish on '".to_owned(),
            NatsOperation::InferenceShutdown => "NATS publish on '".to_owned(),
            NatsOperation::ListenForModel => "Failed to subscribe to '".to_owned(),
            NatsOperation::AlgorithmInit => "NATS publish on '".to_owned(),
            NatsOperation::ModelHandshake => "NATS request on '".to_owned(),
            NatsOperation::Trajectory => "JetStream publish on '".to_owned(),
            NatsOperation::TrainingClientIds => "NATS request on '".to_owned(),
            NatsOperation::TrainingScalingWarning => "NATS publish on '".to_owned(),
            NatsOperation::TrainingScalingComplete => "NATS publish on '".to_owned(),
            NatsOperation::TrainingShutdown => "NATS publish on '".to_owned(),
        }
    }

    /// What is reported between that subject and the reason.
    pub open spec fn spec_failed_for(self) -> Seq<char> {
        match self {
            NatsOperation::InferenceRequest => "' failed for inference: "@,
            NatsOperation::FlagLastInference => "' failed for flag-last-inference: "@,
            NatsOperation::InferenceModelInit => "' failed for inference model init request: "@,
            NatsOperation::InferenceClientIds => "' failed for inference client IDs: "@,
            NatsOperation::InferenceScalingWarning => "' failed for inference scaling warning: "@,
            NatsOperation::InferenceScalingComplete => "' failed for inference scaling complete: "@,
            NatsOperation::InferenceShutdown => "' failed for inference shutdown signal: "@,
            NatsOperation::ListenForModel => "' for model updates: "@,
            NatsOperation::AlgorithmInit => "' failed for algorithm init request: "@,
            NatsOperation::ModelHandshake => "' failed for model handshake: "@,
            NatsOperation::Trajectory => "' failed for trajectory: "@,
            NatsOperation::TrainingClientIds => "' failed for training client IDs: "@,
            NatsOperation::TrainingScalingWarning => "' failed for training scaling warning: "@,
            NatsOperation::TrainingScalingComplete => "' failed for training scaling complete: "@,
            NatsOperation::TrainingShutdown => "' failed for training shutdown signal: "@,
        }
    }

    fn failed_for(&self) -> (r: String)
        ensures
            r@ == self.spec_failed_for(),
    {
        match self {
            NatsOperation::InferenceRequest => "' failed for inference: ".to_owned(),
            NatsOperation::FlagLastInference => "' failed for flag-last-inference: ".to_owned(),
            NatsOperation::InferenceModelInit => "' failed for inference model init request: ".to_owned(),
            NatsOperation::InferenceClientIds => "' failed for inference client IDs: ".to_owned(),
            NatsOperation::InferenceScalingWarning => "' failed for inference scaling warning: ".to_owned(),
            NatsOperation::InferenceScalingComplete => "' failed for inference scaling complete: ".to_owned(),
            NatsOperation::InferenceShutdown => "' failed for inference shutdown signal: ".to_owned(),
            NatsOperation::ListenForModel => "' for model updates: ".to_owned(),
            NatsOperation::AlgorithmInit => "' failed for algorithm init request: ".to_owned(),
            NatsOperation::ModelHandshake => "' failed for model handshake: ".to_owned(),
            NatsOperation::Trajectory => "' failed for trajectory: ".to_owned(),
            NatsOperation::TrainingClientIds => "' failed for training client IDs: ".to_owned(),
            NatsOperation::TrainingScalingWarning => "' failed for training scaling warning: ".to_owned(),
            NatsOperation::TrainingScalingComplete => "' failed for training scaling complete: ".to_owned(),
            NatsOperation::TrainingShutdown => "' failed for training shutdown signal: ".to_owned(),
        }
    }

    /// The server that the operation goes to.
    pub open spec fn spec_server(self) -> NatsServer {
        match self {
            NatsOperation::InferenceRequest => NatsServer::Inference,
            NatsOperation::FlagLastInference => NatsServer::Inference,
            NatsOperation::InferenceModelInit => NatsServer::Inference,
            NatsOperation::InferenceClientIds => NatsServer::Inference,
            NatsOperation::InferenceScalingWarning => NatsServer::Inference,
            NatsOperation::InferenceScalingComplete => NatsServer::Inference,
            NatsOperation::InferenceShutdown => NatsServer::Inference,
            NatsOperation::ListenForModel => NatsServer::Training,
            NatsOperation::AlgorithmInit => NatsServer::Training,
            NatsOperation::ModelHandshake => NatsServer::Training,
            NatsOperation::Trajectory => NatsServer::Training,
            NatsOperation::TrainingClientIds => NatsServer::Training,
            NatsOperation::TrainingScalingWarning => NatsServer::Training,
            NatsOperation::TrainingScalingComplete => NatsServer::Training,
            NatsOperation::TrainingShutdown => NatsServer::Training,
        }
    }

    /// The server that the operation goes to.
    pub fn server(&self) -> (r: NatsServer)
        ensures
            r == self.spec_server(),
    {
        match self {
            NatsOperation::InferenceRequest => NatsServer::Inference,
            NatsOperation::FlagLastInference => NatsServer::Inference,
            NatsOperation::InferenceModelInit => NatsServer::Inference,
            NatsOperation::InferenceClientIds => NatsServer::Inference,
            NatsOperation::InferenceScalingWarning => NatsServer::Inference,
            NatsOperation::InferenceScalingComplete => NatsServer::Inference,
            NatsOperation::InferenceShutdown => NatsServer::Inference,
            NatsOperation::ListenForModel => NatsServer::Training,
            NatsOperation::AlgorithmInit => NatsServer::Training,
            NatsOperation::ModelHandshake => NatsServer::Training,
            NatsOperation::Trajectory => NatsServer::Training,
            NatsOperation::TrainingClientIds => NatsServer::Training,
            NatsOperation::TrainingScalingWarning => NatsServer::Training,
            NatsOperation::TrainingScalingComplete => NatsServer::Training,
            NatsOperation::TrainingShutdown => NatsServer::Training,
        }
    }

    /// Whether an error is the operation's own, with this description.
    pub open spec fn is_error(self, e: TransportError, message: Seq<char>) -> bool {
        match self {
            NatsOperation::InferenceRequest => e matches TransportError::NatsClientError(m) && m@ == message,
            NatsOperation::FlagLastInference => e matches TransportError::NatsClientError(m) && m@ == message,
            NatsOperation::InferenceModelInit => e matches TransportError::NatsClientError(m) && m@ == message,
            NatsOperation::InferenceClientIds => e matches TransportError::SendClientIdsToServerError(m) && m@ == message,
            NatsOperation::InferenceScalingWarning => e matches TransportError::SendScalingWarningError(m) && m@ == message,
            NatsOperation::InferenceScalingComplete => e matches TransportError::SendScalingCompleteError(m) && m@ == message,
            NatsOperation::InferenceShutdown => e matches TransportError::SendShutdownSignalError(m) && m@ == message,
            NatsOperation::ListenForModel => e matches TransportError::ListenForModelError(m) && m@ == message,
            NatsOperation::AlgorithmInit => e matches TransportError::SendAlgorithmInitRequestError(m) && m@ == message,
            NatsOperation::ModelHandshake => e matches TransportError::ModelHandshakeError(m) && m@ == message,
            NatsOperation::Trajectory => e matches TransportError::SendTrajError(m) && m@ == message,
            NatsOperation::TrainingClientIds => e matches TransportError::SendClientIdsToServerError(m) && m@ == message,
            NatsOperation::TrainingScalingWarning => e matches TransportError::SendScalingWarningError(m) && m@ == message,
            NatsOperation::TrainingScalingComplete => e matches TransportError::SendScalingCompleteError(m) && m@ == message,
            NatsOperation::TrainingShutdown => e matches TransportError::SendShutdownSignalError(m) && m@ == message,
        }
    }

    fn error(&self, message: String) -> (r: TransportError)
        ensures
            self.is_error(r, message@),
    {
        match self {
            NatsOperation::InferenceRequest => TransportError::NatsClientError(message),
            NatsOperation::FlagLastInference => TransportError::NatsClientError(message),
            NatsOperation::InferenceModelInit => TransportError::NatsClientError(message),
            NatsOperation::InferenceClientIds => TransportError::SendClientIdsToServerError(message),
            NatsOperation::InferenceScalingWarning => TransportError::SendScalingWarningError(message),
            NatsOperation::InferenceScalingComplete => TransportError::SendScalingCompleteError(message),
            NatsOperation::InferenceShutdown => TransportError::SendShutdownSignalError(message),
            NatsOperation::ListenForModel => TransportError::ListenForModelError(message),
            NatsOperation::AlgorithmInit => TransportError::SendAlgorithmInitRequestError(message),
            NatsOperation::ModelHandshake => TransportError::ModelHandshakeError(message),
            NatsOperation::Trajectory => TransportError::SendTrajError(message),
            NatsOperation::TrainingClientIds => TransportError::SendClientIdsToServerError(message),
            NatsOperation::TrainingScalingWarning => TransportError::SendScalingWarningError(message),
            NatsOperation::TrainingScalingComplete => TransportError::SendScalingCompleteError(message),
            NatsOperation::TrainingShutdown => TransportError::SendShutdownSignalError(message),
        }
    }
}

/// `a` with the other parts behind it.
fn concat(a: &str, b: &str, c: &str, d: &str, e: &str) -> (r: String)
    ensures
        r@ == a@ + b@ + c@ + d@ + e@,
{
    let mut r = a.to_owned();
    r.append(b);
    r.append(c);
    r.append(d);
    r.append(e);
    r
}

/// The hash by which two addresses are told apart: that of the address's bytes and the byte that
/// ends a text.
pub open spec fn fingerprint_of(address: Seq<char>) -> u64 {
    std::hash::DefaultHasher::spec_finish(
        seq![vstd::utf8::encode_utf8(address), seq![0xffu8]],
    )
}

/// Hashes an address.
pub fn address_fingerprint(server_address: &str) -> (r: u64)
    ensures
        r == fingerprint_of(server_address@),
        r == std::hash::DefaultHasher::spec_finish(
            seq![vstd::utf8::encode_utf8(server_address@), seq![0xffu8]],
        ),
{
    let mut address_hasher = std::hash::DefaultHasher::new();
    let bytes = server_address.as_bytes_vec();
    let end: Vec<u8> = vec![0xffu8];
    std::hash::Hasher::write(&mut address_hasher, bytes.as_slice());
    std::hash::Hasher::write(&mut address_hasher, end.as_slice());
    proof {
        assert(end@ =~= seq![0xffu8]);
        assert(address_hasher@ =~= seq![vstd::utf8::encode_utf8(server_address@), seq![0xffu8]]);
    }
    std::hash::Hasher::finish(&address_hasher)
}

/// What is needed before a connection to a server can be used.
#[derive(Clone, Copy, Debug, PartialEq, Eq, Structural)]
pub enum ClientPlan {
    /// The connection is there; for training, with its stream context.
    Ready { client: u64, context: Option<u64> },
    /// The connection that there is has to be drained before a new one is made.
    DrainThenConnect(u64),
    Connect,
}

/// The connections of a client that is shut down.
#[derive(Debug)]
pub struct NatsShutdownClients {
    pub client_namespace: String,
    pub inference_client: Option<u64>,
    pub training_client: Option<u64>,
}

/// The connections and listeners of a client. Of each connection the hash of its address is kept.
pub struct NatsConnectionManager {
    pub client_namespace: String,
    pub inference_client: Option<u64>,
    pub inference_address_fingerprint: Option<u64>,
    pub training_client: Option<u64>,
    pub training_jetstream_context: Option<u64>,
    pub training_address_fingerprint: Option<u64>,
    pub listeners: ModelListeners,
    pub shutting_down: bool,
}

impl NatsConnectionManager {
    /// The listeners are in order.
    pub open spec fn wf(self) -> bool {
        self.listeners.wf()
    }

    /// Whether the address is another than the one of the connection to a server.
    pub open spec fn address_changed(self, server: NatsServer, address: Seq<char>) -> bool {
        let known = match server {
            NatsServer::Inference => self.inference_address_fingerprint,
            NatsServer::Training => self.training_address_fingerprint,
        };
        known != Some(fingerprint_of(address))
    }

    pub fn new(client_namespace: String) -> (r: Self)
        ensures
            r.wf(),
            r.client_namespace == client_namespace,
            r.inference_client is None,
            r.inference_address_fingerprint is None,
            r.training_client is None,
            r.training_jetstream_context is None,
            r.training_address_fingerprint is None,
            forall|id: u128| !r.listeners.registered(id),
            !r.shutting_down,
    {
        NatsConnectionManager {
            client_namespace,
            inference_client: None,
            inference_address_fingerprint: None,
            training_client: None,
            training_jetstream_context: None,
            training_address_fingerprint: None,
            listeners: ModelListeners::new(),
            shutting_down: false,
        }
    }

    pub fn is_shutting_down(&self) -> (r: bool)
        ensures
            r == self.shutting_down,
    {
        self.shutting_down
    }

    /// Begins to shut down, once: listeners are stopped, what is known of the connections is
    /// forgotten, and the connections are handed out to be drained.
    pub fn begin_shutdown(&mut self) -> (r: Option<NatsShutdownClients>)
        requires
            old(self).wf(),
        ensures
            final(self).wf(),
            final(self).shutting_down,
            if old(self).shutting_down {
                r is None && *final(self) == *old(self)
            } else {
                &&& r matches Some(clients)
                &&& clients == (NatsShutdownClients {
                    client_namespace: old(self).client_namespace,
                    inference_client: old(self).inference_client,
                    training_client: old(self).training_client,
                })
                &&& *final(self) == (NatsConnectionManager {
                    client_namespace: old(self).client_namespace,
                    inference_client: None,
                    inference_address_fingerprint: None,
                    training_client: None,
                    training_jetstream_context: None,
                    training_address_fingerprint: None,
                    listeners: final(self).listeners,
                    shutting_down: true,
                })
                &&& old(self).listeners.stops_all(final(self).listeners)
            },
    {
        if self.shutting_down {
            return None;
        }
        self.shutting_down = true;
        self.listeners.stop_all();
        self.inference_address_fingerprint = None;
        self.training_jetstream_context = None;
        self.training_address_fingerprint = None;
        let inference_client = self.inference_client;
        let training_client = self.training_client;
        self.inference_client = None;
        self.training_client = None;
        Some(
            NatsShutdownClients {
                client_namespace: self.client_namespace.clone(),
                inference_client,
                training_client,
            },
        )
    }

    /// What asking for the connection to an inference server leads to.
    pub open spec fn answers_inference(
        self,
        address: Seq<char>,
        after: Self,
        r: Result<ClientPlan, TransportError>,
    ) -> bool {
        if self.shutting_down {
            &&& after == self
            &&& r matches Err(TransportError::InvalidState(m))
            &&& m@ == "NATS transport is shutting down"@
        } else if self.address_changed(NatsServer::Inference, address) {
            &&& after == (NatsConnectionManager { inference_client: None, ..self })
            &&& r matches Ok(plan)
            &&& plan == (match self.inference_client {
                Some(client) => ClientPlan::DrainThenConnect(client),
                None => ClientPlan::Connect,
            })
        } else {
            &&& after == self
            &&& match self.inference_client {
                Some(client) => r == Ok::<ClientPlan, TransportError>(
                    ClientPlan::Ready { client, context: None },
                ),
                None => r matches Err(TransportError::InvalidState(m)) && m@
                    == "Inference NATS client is unavailable after connection attempt"@,
            }
        }
    }

    /// Asks for the connection to an inference server. While the address stays the same, the
    /// connection that there is is used; for another address it is given up.
    pub fn get_inference_client(&mut self, address: &str) -> (r: Result<ClientPlan, TransportError>)
        ensures
            old(self).answers_inference(address@, *final(self), r),
    {
        if self.shutting_down {
            return Err(TransportError::InvalidState("NATS transport is shutting down".to_owned()));
        }
        let incoming: u64 = address_fingerprint(address);
        let changed = match self.inference_address_fingerprint {
            Some(cached) => cached != incoming,
            None => true,
        };
        if changed {
            let existing = self.inference_client;
            self.inference_client = None;
            return match existing {
                Some(client) => Ok(ClientPlan::DrainThenConnect(client)),
                None => Ok(ClientPlan::Connect),
            };
        }
        match self.inference_client {
            Some(client) => Ok(ClientPlan::Ready { client, context: None }),
            None => Err(
                TransportError::InvalidState(
                    "Inference NATS client is unavailable after connection attempt".to_owned(),
                ),
            ),
        }
    }

    /// Keeps a new connection to an inference server, or reports why there is none.
    pub fn inference_connected(&mut self, address: &str, connected: Result<u64, String>) -> (r:
        Result<u64, TransportError>)
        ensures
            match connected {
                Ok(client) => {
                    &&& r == Ok::<u64, TransportError>(client)
                    &&& *final(self) == old(self).with_inference(address@, client)
                },
                Err(why) => {
                    &&& *final(self) == *old(self)
                    &&& r matches Err(e)
                    &&& connect_failed(NatsServer::Inference, address@, why@, e)
                },
            },
    {
        match connected {
            Ok(client) => {
                self.inference_client = Some(client);
                self.inference_address_fingerprint = Some(address_fingerprint(address));
                Ok(client)
            },
            Err(why) => Err(connection_error(NatsServer::Inference, address, why)),
        }
    }

    /// What asking for the connection to a training server leads to.
    pub open spec fn answers_training(
        self,
        address: Seq<char>,
        after: Self,
        r: Result<ClientPlan, TransportError>,
    ) -> bool {
        if self.shutting_down {
            &&& after == self
            &&& r matches Err(TransportError::InvalidState(m))
            &&& m@ == "NATS transport is shutting down"@
        } else if self.address_changed(NatsServer::Training, address) {
            &&& r matches Ok(plan)
            &&& match self.training_client {
                Some(client) => plan == ClientPlan::DrainThenConnect(client) && after == (
                NatsConnectionManager { training_client: None, ..self }),
                None => plan == ClientPlan::Connect && after == (NatsConnectionManager {
                    training_client: None,
                    training_jetstream_context: None,
                    ..self
                }),
            }
        } else {
            &&& after == self
            &&& match (self.training_client, self.training_jetstream_context) {
                (Some(client), Some(context)) => r == Ok::<ClientPlan, TransportError>(
                    ClientPlan::Ready { client, context: Some(context) },
                ),
                (None, _) => r matches Err(TransportError::InvalidState(m)) && m@
                    == "Training NATS client is unavailable after connection attempt"@,
                (Some(_), None) => r matches Err(TransportError::InvalidState(m)) && m@
                    == "Training NATS JetStream context is unavailable after connection attempt"@,
            }
        }
    }

    /// The manager once a connection to an inference server was made.
    pub open spec fn with_inference(self, address: Seq<char>, client: u64) -> Self {
        NatsConnectionManager {
            inference_client: Some(client),
            inference_address_fingerprint: Some(fingerprint_of(address)),
            ..self
        }
    }

    /// The manager once a connection to a training server was made.
    pub open spec fn with_training(self, address: Seq<char>, client: u64, context: u64) -> Self {
        NatsConnectionManager {
            training_client: Some(client),
            training_jetstream_context: Some(context),
            training_address_fingerprint: Some(fingerprint_of(address)),
            ..self
        }
    }

    /// Asks for the connection to a training server and its stream context. While the address stays
    /// the same, those that there are are used; for another address they are given up.
    pub fn get_training_client(&mut self, address: &str) -> (r: Result<ClientPlan, TransportError>)
        ensures
            old(self).answers_training(address@, *final(self), r),
    {
        if self.shutting_down {
            return Err(TransportError::InvalidState("NATS transport is shutting down".to_owned()));
        }
        let incoming: u64 = address_fingerprint(address);
        let changed = match self.training_address_fingerprint {
            Some(cached) => cached != incoming,
            None => true,
        };
        if changed {
            let existing = self.training_client;
            self.training_client = None;
            return match existing {
                Some(client) => Ok(ClientPlan::DrainThenConnect(client)),
                None => {
                    self.training_jetstream_context = None;
                    Ok(ClientPlan::Connect)
                },
            };
        }
        match self.training_client {
            None => Err(
                TransportError::InvalidState(
                    "Training NATS client is unavailable after connection attempt".to_owned(),
                ),
            ),
            Some(client) => match self.training_jetstream_context {
                None => Err(
                    TransportError::InvalidState(
                        "Training NATS JetStream context is unavailable after connection attempt".to_owned(),
                    ),
                ),
                Some(context) => Ok(ClientPlan::Ready { client, context: Some(context) }),
            },
        }
    }

    /// Takes note of how draining the connection to a server ended before a new one is made. The
    /// stream context of a training connection that was drained is forgotten.
    pub fn drained(&mut self, server: NatsServer, address: &str, outcome: Result<(), String>) -> (r:
        Result<(), TransportError>)
        ensures
            match outcome {
                Ok(_) => r is Ok && *final(self) == (if server == NatsServer::Training {
                    NatsConnectionManager { training_jetstream_context: None, ..*old(self) }
                } else {
                    *old(self)
                }),
                Err(why) => {
                    &&& *final(self) == *old(self)
                    &&& r matches Err(TransportError::InvalidState(m))
                    &&& m@ == "Failed to drain existing "@ + server.spec_name()
                        + " NATS client before reconnecting to '"@ + address@ + "': "@ + why@
                },
            },
    {
        match outcome {
            Ok(_) => {
                if server == NatsServer::Training {
                    self.training_jetstream_context = None;
                }
                Ok(())
            },
            Err(why) => {
                let name = server.name();
                let mut m = "Failed to drain existing ".to_owned();
                m.append(name.as_str());
                m.append(" NATS client before reconnecting to '");
                m.append(address);
                m.append("': ");
                m.append(why.as_str());
                Err(TransportError::InvalidState(m))
            },
        }
    }

    /// Keeps a new connection to a training server and its stream context, or reports why there is
    /// none.
    pub fn training_connected(&mut self, address: &str, connected: Result<(u64, u64), String>) -> (r:
        Result<(u64, u64), TransportError>)
        ensures
            match connected {
                Ok(pair) => {
                    &&& r == Ok::<(u64, u64), TransportError>(pair)
                    &&& *final(self) == old(self).with_training(address@, pair.0, pair.1)
                },
                Err(why) => {
                    &&& *final(self) == *old(self)
                    &&& r matches Err(e)
                    &&& connect_failed(NatsServer::Training, address@, why@, e)
                },
            },
    {
        match connected {
            Ok(pair) => {
                self.training_client = Some(pair.0);
                self.training_jetstream_context = Some(pair.1);
                self.training_address_fingerprint = Some(address_fingerprint(address));
                Ok(pair)
            },
            Err(why) => Err(connection_error(NatsServer::Training, address, why)),
        }
    }
}

/// A connection that was made is used for its address as long as nothing is shut down.
pub proof fn law_connection_is_reused(
    m: NatsConnectionManager,
    address: Seq<char>,
    client: u64,
    context: u64,
    after: NatsConnectionManager,
    r: Result<ClientPlan, TransportError>,
)
    requires
        !m.shutting_down,
    ensures
        m.with_inference(address, client).answers_inference(address, after, r) ==> after
            == m.with_inference(address, client) && r == Ok::<ClientPlan, TransportError>(
            ClientPlan::Ready { client, context: None },
        ),
        m.with_training(address, client, context).answers_training(address, after, r) ==> after
            == m.with_training(address, client, context) && r == Ok::<ClientPlan, TransportError>(
            ClientPlan::Ready { client, context: Some(context) },
        ),
{
}

/// Once shutting down has begun no connection is handed out or made.
pub proof fn law_shutdown_blocks_connections(
    m: NatsConnectionManager,
    address: Seq<char>,
    after: NatsConnectionManager,
    r: Result<ClientPlan, TransportError>,
)
    requires
        m.shutting_down,
        m.answers_inference(address, after, r) || m.answers_training(address, after, r),
    ensures
        r is Err,
        after == m,
{
}

/// What is reported when no connection could be made.
pub open spec fn connect_failed(server: NatsServer, address: Seq<char>, why: Seq<char>, e: TransportError) -> bool {
    e matches TransportError::NatsClientError(m) && m@ == "Failed to connect "@ + server.spec_name()
        + " NATS client to '"@ + address + "': "@ + why
}

fn connection_error(server: NatsServer, address: &str, why: String) -> (r: TransportError)
    ensures
        connect_failed(server, address@, why@, r),
{
    let name = server.name();
    let mut m = "Failed to connect ".to_owned();
    m.append(name.as_str());
    m.append(" NATS client to '");
    m.append(address);
    m.append("': ");
    m.append(why.as_str());
    TransportError::NatsClientError(m)
}

/// What is reported when a connection could not be drained at the end.
pub open spec fn drain_text(server: NatsServer, namespace: Seq<char>, why: Seq<char>) -> Seq<char> {
    "Failed to drain "@ + server.spec_name() + " NATS client for '"@ + namespace + "': "@ + why
}

fn drain_failure(server: NatsServer, namespace: &str, why: &str) -> (r: String)
    ensures
        r@ == drain_text(server, namespace@, why@),
{
    let name = server.name();
    let mut m = "Failed to drain ".to_owned();
    m.append(name.as_str());
    m.append(" NATS client for '");
    m.append(namespace);
    m.append("': ");
    m.append(why);
    m
}

/// What shutting down amounts to, from why the connections could not be drained, if so.
pub fn shutdown_outcome(
    client_namespace: &str,
    inference_failure: Option<String>,
    training_failure: Option<String>,
) -> (r: Result<(), TransportError>)
    ensures
        match (inference_failure, training_failure) {
            (None, None) => r is Ok,
            (Some(why), None) => r matches Err(TransportError::InvalidState(m)) && m@ == drain_text(
                NatsServer::Inference,
                client_namespace@,
                why@,
            ),
            (None, Some(why)) => r matches Err(TransportError::InvalidState(m)) && m@ == drain_text(
                NatsServer::Training,
                client_namespace@,
                why@,
            ),
            (Some(a), Some(b)) => r matches Err(TransportError::MultipleErrors(first, second))
                && first@ == drain_text(NatsServer::Inference, client_namespace@, a@) && second@
                == drain_text(NatsServer::Training, client_namespace@, b@),
        },
{
    match (inference_failure, training_failure) {
        (None, None) => Ok(()),
        (Some(why), None) => Err(
            TransportError::InvalidState(
                drain_failure(NatsServer::Inference, client_namespace, why.as_str()),
            ),
        ),
        (None, Some(why)) => Err(
            TransportError::InvalidState(
                drain_failure(NatsServer::Training, client_namespace, why.as_str()),
            ),
        ),
        (Some(a), Some(b)) => Err(
            TransportError::MultipleErrors(
                drain_failure(NatsServer::Inference, client_namespace, a.as_str()),
                drain_failure(NatsServer::Training, client_namespace, b.as_str()),
            ),
        ),
    }
}

/// Whether an error says that the address of the operation's server is empty.
pub open spec fn address_empty(operation: NatsOperation, e: TransportError) -> bool {
    operation.is_error(e, operation.spec_server().spec_title() + " server address is empty"@)
}

/// Refuses an empty address.
pub fn check_address(operation: NatsOperation, address: &str) -> (r: Result<(), TransportError>)
    ensures
        if address@.len() == 0 {
            r matches Err(e) && address_empty(operation, e)
        } else {
            r is Ok
        },
{
    if address.is_empty() {
        let server = operation.server();
        let mut m = server.title();
        m.append(" server address is empty");
        return Err(operation.error(m));
    }
    Ok(())
}

/// Whether an error says that a body could not be encoded.
pub open spec fn unserializable(name: Seq<char>, why: Seq<char>, e: TransportError) -> bool {
    e matches TransportError::InvalidState(m) && m@ == "Failed to serialize "@ + name + " payload: "@
        + why
}

/// Reports that a body could not be encoded.
pub fn serialization_error(name: &str, why: &str) -> (r: TransportError)
    ensures
        unserializable(name@, why@, r),
{
    let m = concat("Failed to serialize ", name, " payload: ", why, "");
    proof {
        reveal_strlit("");
        assert(m@ =~= "Failed to serialize "@ + name@ + " payload: "@ + why@);
    }
    TransportError::InvalidState(m)
}

/// Whether an error says that a reply could not be decoded.
pub open spec fn undeserializable(name: Seq<char>, why: Seq<char>, e: TransportError) -> bool {
    e matches TransportError::InvalidState(m) && m@ == "Failed to deserialize "@ + name
        + " response: "@ + why
}

fn deserialization_error(name: &str, why: &str) -> (r: TransportError)
    ensures
        undeserializable(name@, why@, r),
{
    let m = concat("Failed to deserialize ", name, " response: ", why, "");
    proof {
        reveal_strlit("");
        assert(m@ =~= "Failed to deserialize "@ + name@ + " response: "@ + why@);
    }
    TransportError::InvalidState(m)
}

/// What an operation amounts to, from its address and what encoding its body gave.
pub open spec fn requested(
    operation: NatsOperation,
    address: Seq<char>,
    encoded: Result<Seq<u8>, Seq<char>>,
    r: Result<Vec<u8>, TransportError>,
) -> bool {
    if address.len() == 0 {
        r matches Err(e) && address_empty(operation, e)
    } else {
        match encoded {
            Ok(bytes) => r matches Ok(body) && body@ == bytes,
            Err(why) => r matches Err(e) && unserializable(operation.spec_payload_name(), why, e),
        }
    }
}

/// Hands on the body of an operation, or reports why it could not be encoded.
pub fn payload_encoded(operation: NatsOperation, encoded: Result<Vec<u8>, String>) -> (r: Result<
    Vec<u8>,
    TransportError,
>)
    ensures
        match encoded {
            Ok(body) => r == Ok::<Vec<u8>, TransportError>(body),
            Err(why) => r matches Err(e) && unserializable(operation.spec_payload_name(), why@, e),
        },
{
    match encoded {
        Ok(body) => Ok(body),
        Err(why) => {
            let name = operation.payload_name();
            Err(serialization_error(name.as_str(), why.as_str()))
        },
    }
}

/// Reports why a request on a subject was not sent or not answered.
pub fn sending_error(operation: NatsOperation, subject: &str, why: &str) -> (r: TransportError)
    ensures
        operation.is_error(
            r,
            operation.spec_failed_on() + subject@ + operation.spec_failed_for() + why@,
        ),
{
    let before = operation.failed_on();
    let between = operation.failed_for();
    let mut m = before;
    m.append(subject);
    m.append(between.as_str());
    m.append(why);
    operation.error(m)
}

/// Reports why the delivery of a trajectory on a subject was not acknowledged.
pub fn unacknowledged_trajectory(subject: &str, why: &str) -> (r: TransportError)
    ensures
        r matches TransportError::SendTrajError(m) && m@
            == "JetStream publish acknowledgement on '"@ + subject@ + "' failed for trajectory: "@
            + why@,
{
    let mut m = "JetStream publish acknowledgement on '".to_owned();
    m.append(subject);
    m.append("' failed for trajectory: ");
    m.append(why);
    TransportError::SendTrajError(m)
}

/// Reports why the answer to an inference request is no action.
pub fn unreadable_action(why: &str) -> (r: TransportError)
    ensures
        r matches TransportError::NatsClientError(m) && m@
            == "Failed to deserialize inference response as RelayRLAction: "@ + why@,
{
    let mut m = "Failed to deserialize inference response as RelayRLAction: ".to_owned();
    m.append(why);
    TransportError::NatsClientError(m)
}

/// The requests of a client, under the namespace and the context of its transport.
pub struct NatsOps {
    pub transport_namespace: String,
    pub transport_context: String,
}

impl NatsOps {
    /// What a request about an entry starts with.
    pub open spec fn head(self, entry: IdEntry) -> Seq<Seq<char>> {
        head_texts(self.transport_namespace@, self.transport_context@, entry)
    }

    pub fn new(transport_namespace: String, transport_context: String) -> (r: Self)
        ensures
            r == (NatsOps { transport_namespace, transport_context }),
    {
        NatsOps { transport_namespace, transport_context }
    }

    fn make_head(&self, entry: &IdEntry) -> (r: PayloadHead)
        ensures
            r.texts() == self.head(*entry),
    {
        PayloadHead::of(self.transport_namespace.as_str(), self.transport_context.as_str(), entry)
    }

    /// The body of a request for an action.
    pub fn execute_send_inference_request(
        &self,
        actor_entry: &IdEntry,
        obs_bytes: &Vec<u8>,
        nats_inference_server_address: &str,
    ) -> (r: Result<Vec<u8>, TransportError>)
        ensures
            requested(
                NatsOperation::InferenceRequest,
                nats_inference_server_address@,
                encoded_bytes(self.head(*actor_entry), obs_bytes@),
                r,
            ),
    {
        let operation = NatsOperation::InferenceRequest;
        if let Err(e) = check_address(operation, nats_inference_server_address) {
            return Err(e);
        }
        let head = self.make_head(actor_entry);
        payload_encoded(operation, encode_bytes(&head, obs_bytes))
    }

    /// What the announcement that an episode has ended starts with; its reward comes behind.
    pub fn execute_send_flag_last_inference(
        &self,
        actor_entry: &IdEntry,
        nats_inference_server_address: &str,
    ) -> (r: Result<PayloadHead, TransportError>)
        ensures
            if nats_inference_server_address@.len() == 0 {
                r matches Err(e) && address_empty(NatsOperation::FlagLastInference, e)
            } else {
                r matches Ok(head) && head.texts() == self.head(*actor_entry)
            },
    {
        if let Err(e) = check_address(
            NatsOperation::FlagLastInference,
            nats_inference_server_address,
        ) {
            return Err(e);
        }
        Ok(self.make_head(actor_entry))
    }

    /// The body of the announcement of how actors share a model, and of the model if there is one.
    pub fn execute_send_inference_model_init_request(
        &self,
        scaling_entry: &IdEntry,
        model_mode: &ModelMode,
        model_files: &Option<ModelFilesBundle>,
        nats_inference_server_address: &str,
    ) -> (r: Result<Vec<u8>, TransportError>)
        ensures
            nats_inference_server_address@.len() == 0 ==> (r matches Err(e) && address_empty(
                NatsOperation::InferenceModelInit,
                e,
            )),
            nats_inference_server_address@.len() > 0 ==> match bundle_encoded(*model_files) {
                Ok(files) => requested(
                    NatsOperation::InferenceModelInit,
                    nats_inference_server_address@,
                    encoded_text_bytes(self.head(*scaling_entry), model_mode.spec_name(), files),
                    r,
                ),
                Err(why) => r matches Err(e) && unserializable("model files bundle"@, why, e),
            },
    {
        let operation = NatsOperation::InferenceModelInit;
        if let Err(e) = check_address(operation, nats_inference_server_address) {
            return Err(e);
        }
        let files: Vec<u8> = match write_model_files(model_files) {
            Ok(bytes) => bytes,
            Err(e) => {
                return Err(e);
            },
        };
        let head = self.make_head(scaling_entry);
        let mode = model_mode.name();
        payload_encoded(operation, encode_text_bytes(&head, mode.as_str(), &files))
    }

    /// The body of the announcement of a client's identifiers to a server.
    pub fn execute_send_client_ids(
        &self,
        server: NatsServer,
        scaling_entry: &IdEntry,
        client_ids: &Vec<IdEntry>,
        server_address: &str,
    ) -> (r: Result<Vec<u8>, TransportError>)
        ensures
            requested(
                client_ids_operation(server),
                server_address@,
                encoded_triples(self.head(*scaling_entry), entry_triples(client_ids@)),
                r,
            ),
    {
        let operation = match server {
            NatsServer::Inference => NatsOperation::InferenceClientIds,
            NatsServer::Training => NatsOperation::TrainingClientIds,
        };
        if let Err(e) = check_address(operation, server_address) {
            return Err(e);
        }
        let entries = make_triples(client_ids);
        let head = self.make_head(scaling_entry);
        payload_encoded(operation, encode_triples(&head, &entries))
    }

    /// The body of the announcement to a server that routers are about to be scaled.
    pub fn execute_send_scaling_warning(
        &self,
        server: NatsServer,
        scaling_entry: &IdEntry,
        operation: &ScalingOperation,
        server_address: &str,
    ) -> (r: Result<Vec<u8>, TransportError>)
        ensures
            requested(
                warning_operation(server),
                server_address@,
                encoded_text(self.head(*scaling_entry), operation.spec_name()),
                r,
            ),
    {
        let kind = match server {
            NatsServer::Inference => NatsOperation::InferenceScalingWarning,
            NatsServer::Training => NatsOperation::TrainingScalingWarning,
        };
        if let Err(e) = check_address(kind, server_address) {
            return Err(e);
        }
        let head = self.make_head(scaling_entry);
        let name = operation.name();
        payload_encoded(kind, encode_text(&head, name.as_str()))
    }

    /// The body of the announcement to a server that routers have been scaled.
    pub fn execute_send_scaling_complete(
        &self,
        server: NatsServer,
        scaling_entry: &IdEntry,
        operation: &ScalingOperation,
        server_address: &str,
    ) -> (r: Result<Vec<u8>, TransportError>)
        ensures
            requested(
                complete_operation(server),
                server_address@,
                encoded_text(self.head(*scaling_entry), operation.spec_name()),
                r,
            ),
    {
        let kind = match server {
            NatsServer::Inference => NatsOperation::InferenceScalingComplete,
            NatsServer::Training => NatsOperation::TrainingScalingComplete,
        };
        if let Err(e) = check_address(kind, server_address) {
            return Err(e);
        }
        let head = self.make_head(scaling_entry);
        let name = operation.name();
        payload_encoded(kind, encode_text(&head, name.as_str()))
    }

    /// The body of the announcement to a server that the client shuts down.
    pub fn execute_send_shutdown_signal(
        &self,
        server: NatsServer,
        scaling_entry: &IdEntry,
        server_address: &str,
    ) -> (r: Result<Vec<u8>, TransportError>)
        ensures
            requested(
                shutdown_operation(server),
                server_address@,
                encoded_head(self.head(*scaling_entry)),
                r,
            ),
    {
        let kind = match server {
            NatsServer::Inference => NatsOperation::InferenceShutdown,
            NatsServer::Training => NatsOperation::TrainingShutdown,
        };
        if let Err(e) = check_address(kind, server_address) {
            return Err(e);
        }
        let head = self.make_head(scaling_entry);
        payload_encoded(kind, encode_head(&head))
    }

    /// What the announcement that an algorithm is to be set up starts with; the algorithm and its
    /// hyperparameters come behind.
    pub fn execute_send_algorithm_init_request(
        &self,
        scaling_entry: &IdEntry,
        actor_entries: &Vec<IdEntry>,
        model_mode: &ModelMode,
        nats_training_server_address: &str,
    ) -> (r: Result<AlgorithmInitHead, TransportError>)
        ensures
            if nats_training_server_address@.len() == 0 {
                r matches Err(e) && address_empty(NatsOperation::AlgorithmInit, e)
            } else {
                &&& r matches Ok(start)
                &&& start.head.texts() == self.head(*scaling_entry)
                &&& start.actor_entries@ == joined(own_colon_entries(actor_entries@), ","@)
                &&& start.model_mode@ == model_mode.spec_name()
            },
    {
        if let Err(e) = check_address(NatsOperation::AlgorithmInit, nats_training_server_address) {
            return Err(e);
        }
        Ok(
            AlgorithmInitHead {
                head: self.make_head(scaling_entry),
                actor_entries: own_colon_list(actor_entries),
                model_mode: model_mode.name(),
            },
        )
    }

    /// The body of the request for an actor's first model.
    pub fn execute_initial_model_handshake(
        &self,
        actor_entry: &IdEntry,
        nats_training_server_address: &str,
    ) -> (r: Result<Vec<u8>, TransportError>)
        ensures
            requested(
                NatsOperation::ModelHandshake,
                nats_training_server_address@,
                encoded_head(self.head(*actor_entry)),
                r,
            ),
    {
        let operation = NatsOperation::ModelHandshake;
        if let Err(e) = check_address(operation, nats_training_server_address) {
            return Err(e);
        }
        let head = self.make_head(actor_entry);
        payload_encoded(operation, encode_head(&head))
    }

    /// What the delivery of a trajectory starts with; the trajectory comes behind.
    pub fn execute_send_trajectory(
        &self,
        buffer_entry: &IdEntry,
        nats_training_server_address: &str,
    ) -> (r: Result<PayloadHead, TransportError>)
        ensures
            if nats_training_server_address@.len() == 0 {
                r matches Err(e) && address_empty(NatsOperation::Trajectory, e)
            } else {
                r matches Ok(head) && head.texts() == self.head(*buffer_entry)
            },
    {
        if let Err(e) = check_address(NatsOperation::Trajectory, nats_training_server_address) {
            return Err(e);
        }
        Ok(self.make_head(buffer_entry))
    }
}

/// What the announcement that an algorithm is to be set up starts with.
pub struct AlgorithmInitHead {
    pub head: PayloadHead,
    pub actor_entries: String,
    pub model_mode: String,
}

/// What encoding the files of a model gives, if there is one.
pub open spec fn bundle_encoded(model_files: Option<ModelFilesBundle>) -> Result<Seq<u8>, Seq<char>> {
    match model_files {
        Some(bundle) => encoded_bundle(bundle@),
        None => Ok(Seq::<u8>::empty()),
    }
}

/// Whether bytes hold the files of a model: none hold the absence of one.
pub open spec fn holds_files(bytes: Seq<u8>, model_files: Option<ModelFilesBundle>) -> bool {
    match model_files {
        Some(bundle) => holds_bundle(bytes, bundle@),
        None => bytes.len() == 0,
    }
}

/// Writes the files of a model down, if there is one.
pub fn write_model_files(model_files: &Option<ModelFilesBundle>) -> (r: Result<
    Vec<u8>,
    TransportError,
>)
    ensures
        match bundle_encoded(*model_files) {
            Ok(files) => r matches Ok(bytes) && bytes@ == files && holds_files(files, *model_files),
            Err(why) => r matches Err(e) && unserializable("model files bundle"@, why, e),
        },
{
    match model_files {
        Some(bundle) => match encode_bundle(bundle) {
            Ok(bytes) => Ok(bytes),
            Err(why) => Err(serialization_error("model files bundle", why.as_str())),
        },
        None => Ok(Vec::new()),
    }
}

/// The announcement of identifiers to a server.
pub open spec fn client_ids_operation(server: NatsServer) -> NatsOperation {
    match server {
        NatsServer::Inference => NatsOperation::InferenceClientIds,
        NatsServer::Training => NatsOperation::TrainingClientIds,
    }
}

/// The announcement to a server that routers are about to be scaled.
pub open spec fn warning_operation(server: NatsServer) -> NatsOperation {
    match server {
        NatsServer::Inference => NatsOperation::InferenceScalingWarning,
        NatsServer::Training => NatsOperation::TrainingScalingWarning,
    }
}

/// The announcement to a server that routers have been scaled.
pub open spec fn complete_operation(server: NatsServer) -> NatsOperation {
    match server {
        NatsServer::Inference => NatsOperation::InferenceScalingComplete,
        NatsServer::Training => NatsOperation::TrainingScalingComplete,
    }
}

/// The announcement to a server that the client shuts down.
pub open spec fn shutdown_operation(server: NatsServer) -> NatsOperation {
    match server {
        NatsServer::Inference => NatsOperation::InferenceShutdown,
        NatsServer::Training => NatsOperation::TrainingShutdown,
    }
}

/// The entries of a list as texts.
pub open spec fn entry_triples(entries: Seq<IdEntry>) -> Seq<(Seq<char>, Seq<char>, Seq<char>)> {
    entries.map_values(|e: IdEntry| (e.namespace@, e.context@, uuid_chars(e.id)))
}

fn make_triples(entries: &Vec<IdEntry>) -> (r: Vec<(String, String, String)>)
    ensures
        triples(r@) == entry_triples(entries@),
{
    let mut r: Vec<(String, String, String)> = Vec::new();
    let mut i: usize = 0;
    while i < entries.len()
        invariant
            i <= entries@.len(),
            r@.len() == i,
            forall|k: int|
                0 <= k < i ==> (
                (#[trigger] r@[k]).0@,
                r@[k].1@,
                r@[k].2@,
                ) == entry_triples(entries@)[k],
        decreases entries@.len() - i,
    {
        let e = &entries[i];
        r.push((e.namespace.clone(), e.context.clone(), uuid_text(e.id)));
        i = i + 1;
    }
    proof {
        assert(triples(r@) =~= entry_triples(entries@));
    }
    r
}

/// What a server's acknowledgement of identifiers means.
pub open spec fn acknowledgement_means(
    server: NatsServer,
    text: Seq<char>,
    r: Result<(), TransportError>,
) -> bool {
    match parsed_i64(trimmed(text)) {
        Ok(value) => if value == 0 {
            r is Ok
        } else {
            r matches Err(TransportError::SendClientIdsToServerError(m)) && m@ == server.spec_title()
                + " server responded with failure to client IDs request"@
        },
        Err(fault) => r matches Err(TransportError::SendClientIdsToServerError(m)) && m@
            == "Failed to parse "@ + server.spec_name() + " client IDs acknowledgement response: "@
            + fault.spec_message(),
    }
}

/// Reads the text of an acknowledgement of identifiers.
pub fn read_acknowledgement(server: NatsServer, text: &str) -> (r: Result<(), TransportError>)
    ensures
        acknowledgement_means(server, text@, r),
{
    let content = trim_text(text);
    match parse_i64(content.as_str()) {
        Ok(value) => {
            if value == 0 {
                return Ok(());
            }
            let mut m = server.title();
            m.append(" server responded with failure to client IDs request");
            Err(TransportError::SendClientIdsToServerError(m))
        },
        Err(fault) => {
            let name = server.name();
            let why = fault.message();
            let mut m = "Failed to parse ".to_owned();
            m.append(name.as_str());
            m.append(" client IDs acknowledgement response: ");
            m.append(why.as_str());
            Err(TransportError::SendClientIdsToServerError(m))
        },
    }
}

/// Reads an acknowledgement of identifiers.
pub fn client_ids_acknowledged(server: NatsServer, payload: &Vec<u8>) -> (r: Result<(), TransportError>)
    ensures
        acknowledgement_means(server, lossy_utf8(payload@), r),
{
    let text = read_utf8_lossy(payload);
    read_acknowledgement(server, text.as_str())
}

/// What the answer to a handshake means, from what decoding it gave: there may be no model yet.
pub open spec fn handshake_means(
    decoded: Result<Seq<u8>, Seq<char>>,
    r: Result<Option<ModelFilesBundle>, TransportError>,
) -> bool {
    match decoded {
        Err(why) => r matches Err(e) && undeserializable("model handshake response"@, why, e),
        Ok(files) => if files.len() == 0 {
            r == Ok::<Option<ModelFilesBundle>, TransportError>(None)
        } else {
            match bundle_read(files) {
                Err(why) => r matches Err(e) && undeserializable("model files bundle"@, why, e),
                Ok(bundle) => r matches Ok(Some(b)) && b@ == bundle,
            }
        },
    }
}

/// The files of a model that were written down are read back out of the answer to a handshake that
/// holds them, and the absence of a model is read as such.
pub proof fn law_written_model_is_read(
    model_files: Option<ModelFilesBundle>,
    written: Seq<u8>,
    r: Result<Option<ModelFilesBundle>, TransportError>,
)
    requires
        holds_files(written, model_files),
        handshake_means(Ok(written), r),
    ensures
        match model_files {
            Some(bundle) => r matches Ok(Some(read)) && read@ == bundle@,
            None => r == Ok::<Option<ModelFilesBundle>, TransportError>(None),
        },
{
}

/// Reads the files of a model out of the answer to a handshake that has been decoded.
pub fn handshake_decoded(decoded: Result<Vec<u8>, String>) -> (r: Result<
    Option<ModelFilesBundle>,
    TransportError,
>)
    ensures
        handshake_means(outcome(decoded), r),
{
    match decoded {
        Err(why) => Err(deserialization_error("model handshake response", why.as_str())),
        Ok(files) => {
            if files.len() == 0 {
                return Ok(None);
            }
            match read_bundle(&files) {
                Err(why) => Err(deserialization_error("model files bundle", why.as_str())),
                Ok(bundle) => Ok(Some(bundle)),
            }
        },
    }
}

/// Reads the files of a model out of the answer to a handshake.
pub fn handshake_received(payload: &Vec<u8>) -> (r: Result<Option<ModelFilesBundle>, TransportError>)
    ensures
        handshake_means(decoded_bytes(payload@), r),
{
    handshake_decoded(decode_bytes(payload))
}

/// The steps of writing a model's files down or reading them, other than the conversion itself.
pub enum BundleStep {
    CreateSaveDirectory,
    Save,
    ReadMetadata,
    ReadModelFile(String),
    CreateLoadDirectory,
    WriteMetadata,
    WriteModelFile(String),
    Load,
    Validate,
}

impl BundleStep {
    /// What is reported before the reason why a step failed.
    pub open spec fn spec_failure(self) -> Seq<char> {
        match self {
            BundleStep::CreateSaveDirectory =>
                "Failed to create temporary directory for model serialization: "@,
            BundleStep::Save => "Failed to save model module to temporary directory: "@,
            BundleStep::ReadMetadata => "Failed to read metadata.json from temporary directory: "@,
            BundleStep::ReadModelFile(name) => "Failed to read model file '"@ + name@
                + "' from temporary directory: "@,
            BundleStep::CreateLoadDirectory =>
                "Failed to create temporary directory for model deserialization: "@,
            BundleStep::WriteMetadata => "Failed to write metadata.json to temporary directory: "@,
            BundleStep::WriteModelFile(name) => "Failed to write model file '"@ + name@
                + "' to temporary directory: "@,
            BundleStep::Load => "Failed to load model module from temporary directory: "@,
            BundleStep::Validate => "Failed to validate deserialized model module: "@,
        }
    }

    /// Whether the step belongs to writing files down.
    pub open spec fn saves(self) -> bool {
        self is CreateSaveDirectory || self is Save || self is ReadMetadata || self is ReadModelFile
    }

    /// Reports why a step failed.
    pub fn failed(&self, why: &str) -> (r: TransportError)
        ensures
            if self.saves() {
                r matches TransportError::InvalidState(m) && m@ == self.spec_failure() + why@
            } else {
                r matches TransportError::ModelHandshakeError(m) && m@ == self.spec_failure() + why@
            },
    {
        let mut saves = false;
        let mut m: String = match self {
            BundleStep::CreateSaveDirectory => {
                saves = true;
                "Failed to create temporary directory for model serialization: ".to_owned()
            },
            BundleStep::Save => {
                saves = true;
                "Failed to save model module to temporary directory: ".to_owned()
            },
            BundleStep::ReadMetadata => {
                saves = true;
                "Failed to read metadata.json from temporary directory: ".to_owned()
            },
            BundleStep::ReadModelFile(name) => {
                saves = true;
                let mut m = "Failed to read model file '".to_owned();
                m.append(name.as_str());
                m.append("' from temporary directory: ");
                m
            },
            BundleStep::CreateLoadDirectory =>
                "Failed to create temporary directory for model deserialization: ".to_owned(),
            BundleStep::WriteMetadata =>
                "Failed to write metadata.json to temporary directory: ".to_owned(),
            BundleStep::WriteModelFile(name) => {
                let mut m = "Failed to write model file '".to_owned();
                m.append(name.as_str());
                m.append("' to temporary directory: ");
                m
            },
            BundleStep::Load => "Failed to load model module from temporary directory: ".to_owned(),
            BundleStep::Validate => "Failed to validate deserialized model module: ".to_owned(),
        };
        m.append(why);
        if saves {
            TransportError::InvalidState(m)
        } else {
            TransportError::ModelHandshakeError(m)
        }
    }
}

/// What looking for a model's file name in its metadata amounts to.
pub open spec fn file_name_means(
    found: Result<Option<Seq<char>>, Seq<char>>,
    r: Result<String, TransportError>,
) -> bool {
    match found {
        Err(why) => r matches Err(TransportError::InvalidState(m)) && m@
            == "Failed to parse metadata.json for model file name extraction: "@ + why,
        Ok(None) => r matches Err(TransportError::InvalidState(m)) && m@
            == "metadata.json does not contain a valid 'model_file' field"@,
        Ok(Some(name)) => r matches Ok(n) && n@ == name,
    }
}

/// The file name of a model, from what was found in its metadata.
pub fn model_file_found(found: Result<Option<String>, String>) -> (r: Result<String, TransportError>)
    ensures
        file_name_means(crate::nats_payloads::found_outcome(found), r),
{
    match found {
        Err(why) => {
            let mut m = "Failed to parse metadata.json for model file name extraction: ".to_owned();
            m.append(why.as_str());
            Err(TransportError::InvalidState(m))
        },
        Ok(None) => Err(
            TransportError::InvalidState(
                "metadata.json does not contain a valid 'model_file' field".to_owned(),
            ),
        ),
        Ok(Some(name)) => Ok(name),
    }
}

/// The file name of a model, read from its metadata.
pub fn model_file_name(metadata_json_bytes: &Vec<u8>) -> (r: Result<String, TransportError>)
    ensures
        file_name_means(json_field(lossy_utf8(metadata_json_bytes@), "model_file"@), r),
{
    let text = read_utf8_lossy(metadata_json_bytes);
    model_file_found(read_json_field(text.as_str(), "model_file"))
}

/// What an announcement of a model means, from what decoding it gave.
pub open spec fn broadcast_means(
    decoded: Result<(Seq<u8>, Seq<u8>, i64), Seq<char>>,
    r: Result<RoutedMessage, TransportError>,
) -> bool {
    match decoded {
        Err(why) => r matches Err(e) && undeserializable("model update broadcast"@, why, e),
        Ok((model, actor_id, version)) => if model.len() == 0 {
            r matches Err(TransportError::ListenForModelError(m)) && m@
                == "Received model update broadcast with empty model bytes"@
        } else if actor_id.len() != 16 {
            r matches Err(TransportError::ListenForModelError(m)) && m@
                == "Received model update broadcast with invalid actor ID byte length: expected 16, got "@
                + decimal(actor_id.len())
        } else {
            r matches Ok(message) && message.is_model_update(
                big_endian(actor_id) as u128,
                model,
                version as int,
            )
        },
    }
}

/// Makes a message to an actor out of the announcement of a model that has been decoded.
pub fn broadcast_decoded(
    decoded: Result<crate::nats_payloads::ModelUpdateBroadcast, String>,
) -> (r: Result<RoutedMessage, TransportError>)
    ensures
        broadcast_means(crate::nats_payloads::read_outcome(decoded), r),
{
    match decoded {
        Err(why) => Err(deserialization_error("model update broadcast", why.as_str())),
        Ok(broadcast) => {
            if broadcast.model_bytes.len() == 0 {
                return Err(
                    TransportError::ListenForModelError(
                        "Received model update broadcast with empty model bytes".to_owned(),
                    ),
                );
            }
            if broadcast.actor_id_bytes.len() != 16 {
                let got = decimal_text(broadcast.actor_id_bytes.len() as u64);
                let mut m =
                    "Received model update broadcast with invalid actor ID byte length: expected 16, got ".to_owned();
                m.append(got.as_str());
                return Err(TransportError::ListenForModelError(m));
            }
            let actor_id: u128 = uuid_from_bytes(&broadcast.actor_id_bytes);
            Ok(
                RoutedMessage {
                    actor_id,
                    protocol: RoutingProtocol::ModelUpdate,
                    payload: RoutedPayload::ModelUpdate {
                        model_bytes: broadcast.model_bytes,
                        version: broadcast.model_version,
                    },
                },
            )
        },
    }
}

/// Makes a message to an actor out of the announcement of a model.
pub fn build_routed_model_update_message(model_update_payload_bytes: &Vec<u8>) -> (r: Result<
    RoutedMessage,
    TransportError,
>)
    ensures
        broadcast_means(decoded_broadcast(model_update_payload_bytes@), r),
{
    broadcast_decoded(decode_broadcast(model_update_payload_bytes))
}

/// What happens while announcements of models are handed on.
pub enum ForwardEvent {
    Received(Vec<u8>),
    Forwarded,
    /// A message could not be handed on, why, and whether the listener is to stop.
    ForwardFailed { why: String, stopping: bool },
    /// No more will come, and whether the listener is to stop.
    Closed { stopping: bool },
}

/// What is done next while announcements of models are handed on.
pub enum ForwardAction {
    Forward(RoutedMessage),
    Receive,
    End(Result<(), TransportError>),
}

/// What follows an event while announcements are handed on.
pub open spec fn forwarding(event: ForwardEvent, r: ForwardAction) -> bool {
    match event {
        ForwardEvent::Received(payload) => exists|read: Result<RoutedMessage, TransportError>|
            #[trigger] broadcast_means(decoded_broadcast(payload@), read) && match read {
                Ok(message) => r == ForwardAction::Forward(message),
                Err(e) => r == ForwardAction::End(Err(e)),
            },
        ForwardEvent::Forwarded => r == ForwardAction::Receive,
        ForwardEvent::ForwardFailed { why, stopping } => if stopping {
            r == ForwardAction::End(Ok(()))
        } else {
            r matches ForwardAction::End(Err(TransportError::ListenForModelError(m))) && m@
                == "Failed to dispatch model update message to global dispatcher: "@ + why@
        },
        ForwardEvent::Closed { stopping } => if stopping {
            r == ForwardAction::End(Ok(()))
        } else {
            r matches ForwardAction::End(Err(TransportError::ListenForModelError(m))) && m@
                == "Model update subscriber closed unexpectedly"@
        },
    }
}

/// Decides what follows an event while announcements are handed on.
pub fn forward_model_update_payloads(event: ForwardEvent) -> (r: ForwardAction)
    ensures
        forwarding(event, r),
{
    match event {
        ForwardEvent::Received(payload) => {
            let read = build_routed_model_update_message(&payload);
            proof {
                assert(broadcast_means(decoded_broadcast(payload@), read));
            }
            match read {
                Ok(message) => ForwardAction::Forward(message),
                Err(e) => ForwardAction::End(Err(e)),
            }
        },
        ForwardEvent::Forwarded => ForwardAction::Receive,
        ForwardEvent::ForwardFailed { why, stopping } => {
            if stopping {
                return ForwardAction::End(Ok(()));
            }
            let mut m = "Failed to dispatch model update message to global dispatcher: ".to_owned();
            m.append(why.as_str());
            ForwardAction::End(Err(TransportError::ListenForModelError(m)))
        },
        ForwardEvent::Closed { stopping } => {
            if stopping {
                return ForwardAction::End(Ok(()));
            }
            ForwardAction::End(
                Err(
                    TransportError::ListenForModelError(
                        "Model update subscriber closed unexpectedly".to_owned(),
                    ),
                ),
            )
        },
    }
}

/// Whether listening may start: not without an address or with nobody to hand models to; and not,
/// though that is no error, while the transport shuts down.
pub fn begin_listening(address: &str, receiver_closed: bool, shutting_down: bool) -> (r: Result<
    bool,
    TransportError,
>)
    ensures
        if address@.len() == 0 {
            r matches Err(e) && address_empty(NatsOperation::ListenForModel, e)
        } else if receiver_closed {
            r matches Err(TransportError::ListenForModelError(m)) && m@
                == "Model update transmitter channel is closed"@
        } else {
            r == Ok::<bool, TransportError>(!shutting_down)
        },
{
    if let Err(e) = check_address(NatsOperation::ListenForModel, address) {
        return Err(e);
    }
    if receiver_closed {
        return Err(
            TransportError::ListenForModelError(
                "Model update transmitter channel is closed".to_owned(),
            ),
        );
    }
    Ok(!shutting_down)
}

/// The requests about actions go to the inference server, those about learning to the training
/// server.
pub proof fn law_operations_go_to_their_servers(operation: NatsOperation)
    ensures
        operation.spec_server() == NatsServer::Inference <==> operation is InferenceRequest
            || operation is FlagLastInference
            || operation is InferenceModelInit
            || operation is InferenceClientIds
            || operation is InferenceScalingWarning
            || operation is InferenceScalingComplete
            || operation is InferenceShutdown,
        operation.spec_server() == NatsServer::Training <==> operation is ListenForModel
            || operation is AlgorithmInit
            || operation is ModelHandshake
            || operation is Trajectory
            || operation is TrainingClientIds
            || operation is TrainingScalingWarning
            || operation is TrainingScalingComplete
            || operation is TrainingShutdown,
{
}

/// Each announcement exists once for each server, goes to that server, and is told apart from the
/// others.
pub proof fn law_announcements_go_to_their_servers(server: NatsServer, other: NatsServer)
    ensures
        client_ids_operation(server).spec_server() == server,
        warning_operation(server).spec_server() == server,
        complete_operation(server).spec_server() == server,
        shutdown_operation(server).spec_server() == server,
        client_ids_operation(server) is InferenceClientIds || client_ids_operation(
            server,
        ) is TrainingClientIds,
        warning_operation(server) is InferenceScalingWarning || warning_operation(
            server,
        ) is TrainingScalingWarning,
        complete_operation(server) is InferenceScalingComplete || complete_operation(
            server,
        ) is TrainingScalingComplete,
        shutdown_operation(server) is InferenceShutdown || shutdown_operation(
            server,
        ) is TrainingShutdown,
        client_ids_operation(server) == client_ids_operation(other) ==> server == other,
        warning_operation(server) == warning_operation(other) ==> server == other,
        complete_operation(server) == complete_operation(other) ==> server == other,
        shutdown_operation(server) == shutdown_operation(other) ==> server == other,
{
}

/// The kind of an error tells what failed, and its text is the description.
pub proof fn law_errors_tell_what_failed(operation: NatsOperation, e: TransportError, message: Seq<char>)
    requires
        operation.is_error(e, message),
    ensures
        operation is InferenceRequest
            || operation is FlagLastInference
            || operation is InferenceModelInit
            ==> (e matches TransportError::NatsClientError(m) && m@ == message),
        operation is InferenceClientIds
            || operation is TrainingClientIds
            ==> (e matches TransportError::SendClientIdsToServerError(m) && m@ == message),
        operation is InferenceScalingWarning
            || operation is TrainingScalingWarning
            ==> (e matches TransportError::SendScalingWarningError(m) && m@ == message),
        operation is InferenceScalingComplete
            || operation is TrainingScalingComplete
            ==> (e matches TransportError::SendScalingCompleteError(m) && m@ == message),
        operation is InferenceShutdown
            || operation is TrainingShutdown
            ==> (e matches TransportError::SendShutdownSignalError(m) && m@ == message),
        operation is ListenForModel
            ==> (e matches TransportError::ListenForModelError(m) && m@ == message),
        operation is AlgorithmInit
            ==> (e matches TransportError::SendAlgorithmInitRequestError(m) && m@ == message),
        operation is ModelHandshake
            ==> (e matches TransportError::ModelHandshakeError(m) && m@ == message),
        operation is Trajectory
            ==> (e matches TransportError::SendTrajError(m) && m@ == message),
{
}

/// What operations and servers are called in reports and on the wire.
pub proof fn law_reports_name_what_failed()
    ensures
        NatsOperation::InferenceRequest.spec_payload_name() == "inference request"@,
        NatsOperation::FlagLastInference.spec_payload_name() == "flag-last-inference"@,
        NatsOperation::InferenceModelInit.spec_payload_name() == "inference model init request"@,
        NatsOperation::InferenceClientIds.spec_payload_name() == "inference client IDs"@,
        NatsOperation::InferenceScalingWarning.spec_payload_name() == "inference scaling warning"@,
        NatsOperation::InferenceScalingComplete.spec_payload_name() == "inference scaling complete"@,
        NatsOperation::InferenceShutdown.spec_payload_name() == "inference shutdown"@,
        NatsOperation::ListenForModel.spec_payload_name() == "model update broadcast"@,
        NatsOperation::AlgorithmInit.spec_payload_name() == "algorithm init request"@,
        NatsOperation::ModelHandshake.spec_payload_name() == "model handshake request"@,
        NatsOperation::Trajectory.spec_payload_name() == "trajectory publish"@,
        NatsOperation::TrainingClientIds.spec_payload_name() == "training client IDs"@,
        NatsOperation::TrainingScalingWarning.spec_payload_name() == "training scaling warning"@,
        NatsOperation::TrainingScalingComplete.spec_payload_name() == "training scaling complete"@,
        NatsOperation::TrainingShutdown.spec_payload_name() == "training shutdown"@,
        NatsOperation::InferenceRequest.spec_failed_on() == "NATS request on '"@,
        NatsOperation::FlagLastInference.spec_failed_on() == "NATS publish on '"@,
        NatsOperation::InferenceModelInit.spec_failed_on() == "NATS publish on '"@,
        NatsOperation::InferenceClientIds.spec_failed_on() == "NATS request on '"@,
        NatsOperation::InferenceScalingWarning.spec_failed_on() == "NATS publish on '"@,
        NatsOperation::InferenceScalingComplete.spec_failed_on() == "NATS publish on '"@,
        NatsOperation::InferenceShutdown.spec_failed_on() == "NATS publish on '"@,
        NatsOperation::ListenForModel.spec_failed_on() == "Failed to subscribe to '"@,
        NatsOperation::AlgorithmInit.spec_failed_on() == "NATS publish on '"@,
        NatsOperation::ModelHandshake.spec_failed_on() == "NATS request on '"@,
        NatsOperation::Trajectory.spec_failed_on() == "JetStream publish on '"@,
        NatsOperation::TrainingClientIds.spec_failed_on() == "NATS request on '"@,
        NatsOperation::TrainingScalingWarning.spec_failed_on() == "NATS publish on '"@,
        NatsOperation::TrainingScalingComplete.spec_failed_on() == "NATS publish on '"@,
        NatsOperation::TrainingShutdown.spec_failed_on() == "NATS publish on '"@,
        NatsOperation::InferenceRequest.spec_failed_for() == "' failed for inference: "@,
        NatsOperation::FlagLastInference.spec_failed_for() == "' failed for flag-last-inference: "@,
        NatsOperation::InferenceModelInit.spec_failed_for() == "' failed for inference model init request: "@,
        NatsOperation::InferenceClientIds.spec_failed_for() == "' failed for inference client IDs: "@,
        NatsOperation::InferenceScalingWarning.spec_failed_for() == "' failed for inference scaling warning: "@,
        NatsOperation::InferenceScalingComplete.spec_failed_for() == "' failed for inference scaling complete: "@,
        NatsOperation::InferenceShutdown.spec_failed_for() == "' failed for inference shutdown signal: "@,
        NatsOperation::ListenForModel.spec_failed_for() == "' for model updates: "@,
        NatsOperation::AlgorithmInit.spec_failed_for() == "' failed for algorithm init request: "@,
        NatsOperation::ModelHandshake.spec_failed_for() == "' failed for model handshake: "@,
        NatsOperation::Trajectory.spec_failed_for() == "' failed for trajectory: "@,
        NatsOperation::TrainingClientIds.spec_failed_for() == "' failed for training client IDs: "@,
        NatsOperation::TrainingScalingWarning.spec_failed_for() == "' failed for training scaling warning: "@,
        NatsOperation::TrainingScalingComplete.spec_failed_for() == "' failed for training scaling complete: "@,
        NatsOperation::TrainingShutdown.spec_failed_for() == "' failed for training shutdown signal: "@,
        NatsServer::Inference.spec_name() == "inference"@,
        NatsServer::Training.spec_name() == "training"@,
        NatsServer::Inference.spec_title() == "Inference"@,
        NatsServer::Training.spec_title() == "Training"@,
        ScalingOperation::ScaleOut.spec_name() == "scale_out"@,
        ScalingOperation::ScaleIn.spec_name() == "scale_in"@,
{
}

/// The connection that there is to the inference server is used exactly for the address that it was
/// made to. For another address it is handed out to be drained, and no longer kept. The connection
/// to the training server is left alone.
pub proof fn law_other_addresses_need_another_inference_connection(
    m: NatsConnectionManager,
    address: Seq<char>,
    after: NatsConnectionManager,
    r: Result<ClientPlan, TransportError>,
)
    requires
        m.answers_inference(address, after, r),
    ensures
        r is Ok && r->Ok_0 is Ready ==> m.inference_address_fingerprint == Some(
            fingerprint_of(address),
        ) && m.inference_client == Some(r->Ok_0->client) && r->Ok_0->context is None && after == m,
        r is Ok && r->Ok_0 is DrainThenConnect ==> m.inference_address_fingerprint != Some(
            fingerprint_of(address),
        ) && m.inference_client == Some(r->Ok_0->DrainThenConnect_0) && after.inference_client is None,
        r is Ok && r->Ok_0 is Connect ==> m.inference_address_fingerprint != Some(
            fingerprint_of(address),
        ) && m.inference_client is None && after.inference_client is None,
        !m.shutting_down && m.inference_address_fingerprint != Some(fingerprint_of(address)) ==> r is Ok
            && r->Ok_0 !is Ready,
        !m.shutting_down && m.inference_address_fingerprint == Some(fingerprint_of(address)) ==> (r is Ok
            <==> m.inference_client is Some),
        m.shutting_down ==> (r matches Err(TransportError::InvalidState(text)) && text@
            == "NATS transport is shutting down"@),
        after.training_client == m.training_client,
        after.training_jetstream_context == m.training_jetstream_context,
        after.training_address_fingerprint == m.training_address_fingerprint,
        after.inference_address_fingerprint == m.inference_address_fingerprint,
        after.listeners == m.listeners,
        after.shutting_down == m.shutting_down,
{
}

/// The connection that there is to the training server, with its stream context, is used exactly for
/// the address that it was made to. For another address it is handed out to be drained, and no
/// longer kept. The connection to the inference server is left alone.
pub proof fn law_other_addresses_need_another_training_connection(
    m: NatsConnectionManager,
    address: Seq<char>,
    after: NatsConnectionManager,
    r: Result<ClientPlan, TransportError>,
)
    requires
        m.answers_training(address, after, r),
    ensures
        r is Ok && r->Ok_0 is Ready ==> m.training_address_fingerprint == Some(
            fingerprint_of(address),
        ) && m.training_client == Some(r->Ok_0->client) && r->Ok_0->context is Some
            && m.training_jetstream_context == r->Ok_0->context && after == m,
        r is Ok && r->Ok_0 is DrainThenConnect ==> m.training_address_fingerprint != Some(
            fingerprint_of(address),
        ) && m.training_client == Some(r->Ok_0->DrainThenConnect_0) && after.training_client is None
            && after.training_jetstream_context == m.training_jetstream_context,
        r is Ok && r->Ok_0 is Connect ==> m.training_address_fingerprint != Some(
            fingerprint_of(address),
        ) && m.training_client is None && after.training_client is None
            && after.training_jetstream_context is None,
        !m.shutting_down && m.training_address_fingerprint != Some(fingerprint_of(address)) ==> r is Ok
            && r->Ok_0 !is Ready,
        !m.shutting_down && m.training_address_fingerprint == Some(fingerprint_of(address)) ==> (r is Ok
            <==> m.training_client is Some && m.training_jetstream_context is Some),
        m.shutting_down ==> (r matches Err(TransportError::InvalidState(text)) && text@
            == "NATS transport is shutting down"@),
        after.inference_client == m.inference_client,
        after.inference_address_fingerprint == m.inference_address_fingerprint,
        after.training_address_fingerprint == m.training_address_fingerprint,
        after.listeners == m.listeners,
        after.shutting_down == m.shutting_down,
{
}

/// A connection that was made is kept with its address, and changes nothing of the other server's.
pub proof fn law_made_connections_are_kept_apart(
    m: NatsConnectionManager,
    address: Seq<char>,
    client: u64,
    context: u64,
)
    ensures
        m.with_inference(address, client).inference_client == Some(client),
        m.with_inference(address, client).inference_address_fingerprint == Some(
            fingerprint_of(address),
        ),
        m.with_inference(address, client).training_client == m.training_client,
        m.with_inference(address, client).training_jetstream_context == m.training_jetstream_context,
        m.with_inference(address, client).training_address_fingerprint
            == m.training_address_fingerprint,
        m.with_inference(address, client).listeners == m.listeners,
        m.with_inference(address, client).shutting_down == m.shutting_down,
        m.with_training(address, client, context).training_client == Some(client),
        m.with_training(address, client, context).training_jetstream_context == Some(context),
        m.with_training(address, client, context).training_address_fingerprint == Some(
            fingerprint_of(address),
        ),
        m.with_training(address, client, context).inference_client == m.inference_client,
        m.with_training(address, client, context).inference_address_fingerprint
            == m.inference_address_fingerprint,
        m.with_training(address, client, context).listeners == m.listeners,
        m.with_training(address, client, context).shutting_down == m.shutting_down,
        m.with_inference(address, client).with_training(address, client, context) == m.with_training(
            address,
            client,
            context,
        ).with_inference(address, client),
{
}

/// Reports on a connection name the server, the address or the namespace, and the reason, in that
/// order.
pub proof fn law_connection_reports_name_the_server(place: Seq<char>, why: Seq<char>, e: TransportError)
    ensures
        connect_failed(NatsServer::Inference, place, why, e) ==> (e matches
            TransportError::NatsClientError(m) && m@ == "Failed to connect "@ + "inference"@
            + " NATS client to '"@ + place + "': "@ + why),
        connect_failed(NatsServer::Training, place, why, e) ==> (e matches
            TransportError::NatsClientError(m) && m@ == "Failed to connect "@ + "training"@
            + " NATS client to '"@ + place + "': "@ + why),
        drain_text(NatsServer::Inference, place, why) == "Failed to drain "@ + "inference"@
            + " NATS client for '"@ + place + "': "@ + why,
        drain_text(NatsServer::Training, place, why) == "Failed to drain "@ + "training"@
            + " NATS client for '"@ + place + "': "@ + why,
{
}

/// A request has a body exactly if its address is not empty and its body could be encoded, and then
/// it is what was encoded. Without an address the report names the server.
pub proof fn law_requests_need_an_address(
    operation: NatsOperation,
    address: Seq<char>,
    encoded: Result<Seq<u8>, Seq<char>>,
    r: Result<Vec<u8>, TransportError>,
)
    requires
        requested(operation, address, encoded, r),
    ensures
        r is Ok <==> address.len() > 0 && encoded is Ok,
        r matches Ok(body) ==> body@ == encoded->Ok_0,
        address.len() == 0 && operation.spec_server() == NatsServer::Inference ==> operation.is_error(
            r->Err_0,
            "Inference"@ + " server address is empty"@,
        ),
        address.len() == 0 && operation.spec_server() == NatsServer::Training ==> operation.is_error(
            r->Err_0,
            "Training"@ + " server address is empty"@,
        ),
        address.len() > 0 && encoded is Err ==> (r matches Err(TransportError::InvalidState(m)) && m@
            == "Failed to serialize "@ + operation.spec_payload_name() + " payload: "@
            + encoded->Err_0),
{
}

/// A request is about its entry, in the name of its transport.
pub proof fn law_requests_are_about_their_entry(ops: NatsOps, entry: IdEntry)
    ensures
        ops.head(entry) == seq![
            ops.transport_namespace@,
            ops.transport_context@,
            entry.namespace@,
            entry.context@,
            uuid_chars(entry.id),
        ],
{
}

/// The identifiers that are announced are those of the list, in its order, each by its texts.
pub proof fn law_identifiers_are_announced_in_order(entries: Seq<IdEntry>, i: int)
    ensures
        entry_triples(entries).len() == entries.len(),
        0 <= i < entries.len() ==> entry_triples(entries)[i].0 == entries[i].namespace@,
        0 <= i < entries.len() ==> entry_triples(entries)[i].1 == entries[i].context@,
        0 <= i < entries.len() ==> entry_triples(entries)[i].2 == uuid_chars(entries[i].id),
{
}

/// Without a model no bytes are sent in its place; with one, those that hold its files.
pub proof fn law_absent_models_take_no_bytes(model_files: Option<ModelFilesBundle>, bytes: Seq<u8>)
    ensures
        model_files is None ==> bundle_encoded(model_files) == Ok::<Seq<u8>, Seq<char>>(Seq::empty()),
        model_files matches Some(bundle) ==> bundle_encoded(model_files) == encoded_bundle(bundle@),
        holds_files(bytes, model_files) ==> (bytes.len() == 0 <==> model_files is None),
{
}

/// A server has taken note of identifiers exactly if its reply reads as nought; a reply that reads
/// as another number is a refusal, and one that does not read as a number is reported with the
/// reason.
pub proof fn law_only_nought_acknowledges(server: NatsServer, text: Seq<char>, r: Result<(), TransportError>)
    requires
        acknowledgement_means(server, text, r),
    ensures
        r is Ok <==> (parsed_i64(trimmed(text)) matches Ok(value) && value == 0),
        r matches Err(e) ==> e is SendClientIdsToServerError,
        parsed_i64(trimmed(text)) is Ok && r is Err && server == NatsServer::Inference
            ==> r->Err_0->SendClientIdsToServerError_0@ == "Inference"@
            + " server responded with failure to client IDs request"@,
        parsed_i64(trimmed(text)) is Ok && r is Err && server == NatsServer::Training
            ==> r->Err_0->SendClientIdsToServerError_0@ == "Training"@
            + " server responded with failure to client IDs request"@,
{
}

/// The answer to a handshake gives a model exactly if it decodes to bytes that hold one, and then
/// that model; if it decodes to no bytes there is no model yet, which is no failure.
pub proof fn law_handshakes_give_the_model_or_none(
    decoded: Result<Seq<u8>, Seq<char>>,
    r: Result<Option<ModelFilesBundle>, TransportError>,
)
    requires
        handshake_means(decoded, r),
    ensures
        r is Ok && r->Ok_0 is None <==> decoded is Ok && decoded->Ok_0.len() == 0,
        r is Ok && r->Ok_0 is Some <==> decoded is Ok && decoded->Ok_0.len() > 0 && bundle_read(
            decoded->Ok_0,
        ) is Ok,
        r is Ok && r->Ok_0 is Some ==> r->Ok_0->0@ == bundle_read(decoded->Ok_0)->Ok_0,
        decoded matches Err(why) ==> (r matches Err(TransportError::InvalidState(m)) && m@
            == "Failed to deserialize "@ + "model handshake response"@ + " response: "@ + why),
        r matches Err(e) ==> e is InvalidState,
{
}

/// Failures while files are written down are faults of state; failures while they are read are
/// faults of the handshake.
pub proof fn law_saving_and_loading_are_apart(step: BundleStep)
    ensures
        step.saves() <==> !(step is CreateLoadDirectory || step is WriteMetadata
            || step is WriteModelFile || step is Load || step is Validate),
        step matches BundleStep::ReadModelFile(name) ==> step.saves() && step.spec_failure()
            == "Failed to read model file '"@ + name@ + "' from temporary directory: "@,
        step matches BundleStep::WriteModelFile(name) ==> !step.saves() && step.spec_failure()
            == "Failed to write model file '"@ + name@ + "' to temporary directory: "@,
        step is CreateSaveDirectory ==> step.spec_failure()
            == "Failed to create temporary directory for model serialization: "@,
        step is Save ==> step.spec_failure()
            == "Failed to save model module to temporary directory: "@,
        step is ReadMetadata ==> step.spec_failure()
            == "Failed to read metadata.json from temporary directory: "@,
        step is CreateLoadDirectory ==> step.spec_failure()
            == "Failed to create temporary directory for model deserialization: "@,
        step is WriteMetadata ==> step.spec_failure()
            == "Failed to write metadata.json to temporary directory: "@,
        step is Load ==> step.spec_failure()
            == "Failed to load model module from temporary directory: "@,
        step is Validate ==> step.spec_failure() == "Failed to validate deserialized model module: "@,
{
}

/// A model has a file name exactly if one was found, and it is the one that was found.
pub proof fn law_file_names_are_those_found(
    found: Result<Option<Seq<char>>, Seq<char>>,
    r: Result<String, TransportError>,
)
    requires
        file_name_means(found, r),
    ensures
        r is Ok <==> found is Ok && found->Ok_0 is Some,
        r matches Ok(name) ==> name@ == found->Ok_0->0,
        r matches Err(e) ==> e is InvalidState,
        found matches Err(why) ==> r->Err_0->InvalidState_0@
            == "Failed to parse metadata.json for model file name extraction: "@ + why,
        found is Ok && found->Ok_0 is None ==> r->Err_0->InvalidState_0@
            == "metadata.json does not contain a valid 'model_file' field"@,
{
}

/// An announced model becomes a message exactly if it has bytes and is for an identifier of sixteen
/// bytes; the message is for that actor and brings those bytes in that version.
pub proof fn law_announced_models_reach_their_actor(
    decoded: Result<(Seq<u8>, Seq<u8>, i64), Seq<char>>,
    r: Result<RoutedMessage, TransportError>,
)
    requires
        broadcast_means(decoded, r),
    ensures
        r is Ok <==> decoded is Ok && decoded->Ok_0.0.len() > 0 && decoded->Ok_0.1.len() == 16,
        r matches Ok(message) ==> {
            &&& message.actor_id == big_endian(decoded->Ok_0.1) as u128
            &&& message.protocol == RoutingProtocol::ModelUpdate
            &&& message.payload matches RoutedPayload::ModelUpdate { model_bytes, version }
            &&& model_bytes@ == decoded->Ok_0.0
            &&& version == decoded->Ok_0.2
        },
        decoded is Err ==> r->Err_0 is InvalidState,
        decoded is Ok && r is Err ==> r->Err_0 is ListenForModelError,
{
}

/// While announcements are handed on: one that is handed on is followed by the next, one that does
/// not read ends it with an error, and an end is a good one exactly if the listener was to stop.
pub proof fn law_forwarding_ends_well_only_when_told(event: ForwardEvent, r: ForwardAction)
    requires
        forwarding(event, r),
    ensures
        r is Receive <==> event is Forwarded,
        r is Forward ==> event is Received,
        event is Received ==> r is Forward || (r is End && r->End_0 is Err),
        event matches ForwardEvent::ForwardFailed { stopping, .. } ==> r is End && (r->End_0 is Ok
            <==> stopping),
        event matches ForwardEvent::Closed { stopping } ==> r is End && (r->End_0 is Ok <==> stopping),
        event matches ForwardEvent::Received(payload) ==> (r is Forward <==> decoded_broadcast(
            payload@,
        ) is Ok && decoded_broadcast(payload@)->Ok_0.0.len() > 0 && decoded_broadcast(
            payload@,
        )->Ok_0.1.len() == 16),
        event matches ForwardEvent::Received(payload) ==> (r matches ForwardAction::Forward(message)
            ==> broadcast_means(decoded_broadcast(payload@), Ok(message))),
        r is End && r->End_0 is Err && event !is Received ==> r->End_0->Err_0 is ListenForModelError,
{
}

} // verus!
