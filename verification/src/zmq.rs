//! Requests over ZeroMQ: the sockets and addresses that are kept, the frames that are sent and what
//! replies mean.
//!
//! Sockets live outside this module; here each is known by a token.

use crate::entries::{
    colon_entries, colon_list, entry_chars, entry_fault, entry_text, spaced_entries, spaced_list,
    validate_entry,
};
use crate::errors::{TransportError, ZmqPoolError};
use crate::hyperparameters::{algorithm_name, Algorithm};
use crate::ids::{big_endian, uuid_chars, uuid_from_bytes, uuid_text};
use crate::lifecycle::{
    SharedTransportAddresses, SharedZmqInferenceAddresses, SharedZmqTrainingAddresses,
};
use crate::listeners::{ModelListenerHandle, ModelListeners};
use crate::maps::{
    addresses, addresses_get, addresses_insert, tokens, tokens_get, tokens_insert, tokens_keys,
    tokens_remove,
};
use crate::messages::{RoutedMessage, RoutedPayload, RoutingProtocol};
use crate::registry::{
    pool_error_chars, refuses_removal, refuses_reservation, remove_entry, reserve_slot, IdEntry,
    IdSlot,
};
use crate::text::{
    decimal, decimal_text, joined, lossy_utf8, parse_i64, parsed_i64, read_utf8_lossy, same_text,
    IntegerFault,
};
use active_uuid_registry::UuidPoolError;
use dashmap::DashMap;
use vstd::prelude::*;

verus! {

/// The context that the identities of ZeroMQ clients are registered under.
pub const ZMQ_CLIENT_CONTEXT: &'static str = "zmq-client";

/// The namespace that kept sockets are registered under.
pub const SOCKET_NAMESPACE: &'static str = "client";

/// The operations over ZeroMQ.
#[derive(Clone, Copy, Debug, PartialEq, Eq, Structural)]
pub enum ZmqOperation {
    ListenForModel,
    AlgorithmInit,
    ModelHandshake,
    Trajectory,
    ClientIds,
    ScalingWarning,
    ScalingComplete,
    ShutdownSignal,
}

/// Which of the kept addresses an operation uses.
#[derive(Clone, Copy, Debug, PartialEq, Eq, Structural)]
pub enum CacheAddressType {
    InferenceServer,
    AgentListener,
    ModelServer,
    TrajectoryServer,
    InferenceScalingServer,
    TrainingScalingServer,
}

/// Which of the pools an operation takes its socket from.
#[derive(Clone, Copy, Debug, PartialEq, Eq, Structural)]
pub enum SocketPoolType {
    InferenceDealer,
    ModelDealer,
    ModelSub,
    TrajPush,
    ScalingDealer,
}

/// The kinds of sockets.
#[derive(Clone, Copy, Debug, PartialEq, Eq, Structural)]
pub enum SocketKind {
    Dealer,
    Sub,
    Push,
}

impl SocketPoolType {
    /// The name of the pool.
    pub open spec fn spec_name(self) -> Seq<char> {
        match self {
            SocketPoolType::InferenceDealer => "InferenceDealer"@,
            SocketPoolType::ModelDealer => "ModelDealer"@,
            SocketPoolType::ModelSub => "ModelSub"@,
            SocketPoolType::TrajPush => "TrajPush"@,
            SocketPoolType::ScalingDealer => "ScalingDealer"@,
        }
    }

    fn name(&self) -> (r: String)
        ensures
            r@ == self.spec_name(),
    {
        match self {
            SocketPoolType::InferenceDealer => "InferenceDealer".to_owned(),
            SocketPoolType::ModelDealer => "ModelDealer".to_owned(),
            SocketPoolType::ModelSub => "ModelSub".to_owned(),
            SocketPoolType::TrajPush => "TrajPush".to_owned(),
            SocketPoolType::ScalingDealer => "ScalingDealer".to_owned(),
        }
    }

    /// The kind of socket that a pool holds.
    pub open spec fn spec_kind(self) -> SocketKind {
        match self {
            SocketPoolType::ModelSub => SocketKind::Sub,
            SocketPoolType::TrajPush => SocketKind::Push,
            _ => SocketKind::Dealer,
        }
    }

    /// The kind of socket that a pool holds.
    pub fn kind(&self) -> (r: SocketKind)
        ensures
            r == self.spec_kind(),
    {
        match self {
            SocketPoolType::ModelSub => SocketKind::Sub,
            SocketPoolType::TrajPush => SocketKind::Push,
            _ => SocketKind::Dealer,
        }
    }
}

impl SocketKind {
    /// The base of the identities that sockets of a kind are given.
    pub open spec fn spec_identity_base(self) -> u32 {
        match self {
            SocketKind::Dealer => 117,
            SocketKind::Sub => 69,
            SocketKind::Push => 67,
        }
    }

    /// The base of the identities that sockets of a kind are given.
    pub fn identity_base(&self) -> (r: u32)
        ensures
            r == self.spec_identity_base(),
    {
        match self {
            SocketKind::Dealer => 117,
            SocketKind::Sub => 69,
            SocketKind::Push => 67,
        }
    }

    /// The context that a kept socket of a kind is registered under.
    pub open spec fn spec_context(self) -> Seq<char> {
        match self {
            SocketKind::Dealer => "zmq_dealer_socket"@,
            SocketKind::Sub => "zmq_sub_socket"@,
            SocketKind::Push => "zmq_push_socket"@,
        }
    }

    /// The context that a kept socket of a kind is registered under.
    pub fn context(&self) -> (r: String)
        ensures
            r@ == self.spec_context(),
    {
        match self {
            SocketKind::Dealer => "zmq_dealer_socket".to_owned(),
            SocketKind::Sub => "zmq_sub_socket".to_owned(),
            SocketKind::Push => "zmq_push_socket".to_owned(),
        }
    }
}

impl ZmqOperation {
    /// What is reported when the address is empty.
    pub open spec fn spec_empty_address(self) -> Seq<char> {
        match self {
            ZmqOperation::ListenForModel => "Model server address is empty"@,
            ZmqOperation::AlgorithmInit => "Agent listener address is empty"@,
            ZmqOperation::ModelHandshake => "Agent listener address is empty"@,
            ZmqOperation::Trajectory => "Trajectory server address is empty"@,
            ZmqOperation::ClientIds => "Agent listener address is empty"@,
            ZmqOperation::ScalingWarning => "Scaling server address is empty"@,
            ZmqOperation::ScalingComplete => "Scaling server address is empty"@,
            ZmqOperation::ShutdownSignal => "Scaling server address is empty"@,
        }
    }

    fn empty_address(&self) -> (r: String)
        ensures
            r@ == self.spec_empty_address(),
    {
        match self {
            ZmqOperation::ListenForModel => "Model server address is empty".to_owned(),
            ZmqOperation::AlgorithmInit => "Agent listener address is empty".to_owned(),
            ZmqOperation::ModelHandshake => "Agent listener address is empty".to_owned(),
            ZmqOperation::Trajectory => "Trajectory server address is empty".to_owned(),
            ZmqOperation::ClientIds => "Agent listener address is empty".to_owned(),
            ZmqOperation::ScalingWarning => "Scaling server address is empty".to_owned(),
            ZmqOperation::ScalingComplete => "Scaling server address is empty".to_owned(),
            ZmqOperation::ShutdownSignal => "Scaling server address is empty".to_owned(),
        }
    }

    /// What is reported when there is no pool of sockets.
    pub open spec fn spec_no_pool(self) -> Seq<char> {
        match self {
            ZmqOperation::ListenForModel => "SUB socket pool not initialized"@,
            ZmqOperation::AlgorithmInit => "Scaling dealer socket pool not initialized"@,
            ZmqOperation::ModelHandshake => "Model dealer socket pool not initialized"@,
            ZmqOperation::Trajectory => "Trajectory push socket pool not initialized"@,
            ZmqOperation::ClientIds => "Scaling dealer socket pool not initialized"@,
            ZmqOperation::ScalingWarning => "Scaling dealer socket pool not initialized"@,
            ZmqOperation::ScalingComplete => "Scaling dealer socket pool not initialized"@,
            ZmqOperation::ShutdownSignal => "Scaling dealer socket pool not initialized"@,
        }
    }

    fn no_pool(&self) -> (r: String)
        ensures
            r@ == self.spec_no_pool(),
    {
        match self {
            ZmqOperation::ListenForModel => "SUB socket pool not initialized".to_owned(),
            ZmqOperation::AlgorithmInit => "Scaling dealer socket pool not initialized".to_owned(),
            ZmqOperation::ModelHandshake => "Model dealer socket pool not initialized".to_owned(),
            ZmqOperation::Trajectory => "Trajectory push socket pool not initialized".to_owned(),
            ZmqOperation::ClientIds => "Scaling dealer socket pool not initialized".to_owned(),
            ZmqOperation::ScalingWarning => "Scaling dealer socket pool not initialized".to_owned(),
            ZmqOperation::ScalingComplete => "Scaling dealer socket pool not initialized".to_owned(),
            ZmqOperation::ShutdownSignal => "Scaling dealer socket pool not initialized".to_owned(),
        }
    }

    /// What is reported before the identifier for which there is no socket.
    pub open spec fn spec_no_socket(self) -> Seq<char> {
        match self {
            ZmqOperation::ListenForModel => "SUB socket not found for receiver ID: "@,
            ZmqOperation::AlgorithmInit => "Scaling dealer socket not found for ID: "@,
            ZmqOperation::ModelHandshake => "Model dealer socket not found for actor ID: "@,
            ZmqOperation::Trajectory => "Trajectory push socket not found for buffer ID: "@,
            ZmqOperation::ClientIds => "Scaling dealer socket not found for ID: "@,
            ZmqOperation::ScalingWarning => "Scaling dealer socket not found for ID: "@,
            ZmqOperation::ScalingComplete => "Scaling dealer socket not found for ID: "@,
            ZmqOperation::ShutdownSignal => "Scaling dealer socket not found for ID: "@,
        }
    }

    fn no_socket(&self) -> (r: String)
        ensures
            r@ == self.spec_no_socket(),
    {
        match self {
            ZmqOperation::ListenForModel => "SUB socket not found for receiver ID: ".to_owned(),
            ZmqOperation::AlgorithmInit => "Scaling dealer socket not found for ID: ".to_owned(),
            ZmqOperation::ModelHandshake => "Model dealer socket not found for actor ID: ".to_owned(),
            ZmqOperation::Trajectory => "Trajectory push socket not found for buffer ID: ".to_owned(),
            ZmqOperation::ClientIds => "Scaling dealer socket not found for ID: ".to_owned(),
            ZmqOperation::ScalingWarning => "Scaling dealer socket not found for ID: ".to_owned(),
            ZmqOperation::ScalingComplete => "Scaling dealer socket not found for ID: ".to_owned(),
            ZmqOperation::ShutdownSignal => "Scaling dealer socket not found for ID: ".to_owned(),
        }
    }

    /// What is reported before the reason why a socket is in use.
    pub open spec fn spec_lock_failed(self) -> Seq<char> {
        match self {
            ZmqOperation::ListenForModel => "Failed to lock sub socket: "@,
            ZmqOperation::AlgorithmInit => "Failed to lock scaling dealer socket: "@,
            ZmqOperation::ModelHandshake => "Failed to lock dealer socket: "@,
            ZmqOperation::Trajectory => "Failed to lock push socket: "@,
            ZmqOperation::ClientIds => "Failed to lock scaling dealer socket: "@,
            ZmqOperation::ScalingWarning => "Failed to lock dealer socket: "@,
            ZmqOperation::ScalingComplete => "Failed to lock dealer socket: "@,
            ZmqOperation::ShutdownSignal => "Failed to lock dealer socket: "@,
        }
    }

    fn lock_failed(&self) -> (r: String)
        ensures
            r@ == self.spec_lock_failed(),
    {
        match self {
            ZmqOperation::ListenForModel => "Failed to lock sub socket: ".to_owned(),
            ZmqOperation::AlgorithmInit => "Failed to lock scaling dealer socket: ".to_owned(),
            ZmqOperation::ModelHandshake => "Failed to lock dealer socket: ".to_owned(),
            ZmqOperation::Trajectory => "Failed to lock push socket: ".to_owned(),
            ZmqOperation::ClientIds => "Failed to lock scaling dealer socket: ".to_owned(),
            ZmqOperation::ScalingWarning => "Failed to lock dealer socket: ".to_owned(),
            ZmqOperation::ScalingComplete => "Failed to lock dealer socket: ".to_owned(),
            ZmqOperation::ShutdownSignal => "Failed to lock dealer socket: ".to_owned(),
        }
    }

    /// What is reported before the reason why sending failed. Listeners send nothing.
    pub open spec fn spec_send_failed(self) -> Seq<char> {
        match self {
            ZmqOperation::ListenForModel => ""@,
            ZmqOperation::AlgorithmInit => "Failed to send algorithm init request: "@,
            ZmqOperation::ModelHandshake => "Failed to send GET_MODEL: "@,
            ZmqOperation::Trajectory => "Failed to send trajectory: "@,
            ZmqOperation::ClientIds => "Failed to send client IDs to server: "@,
            ZmqOperation::ScalingWarning => "Failed to send scaling warning: "@,
            ZmqOperation::ScalingComplete => "Failed to send scaling complete: "@,
            ZmqOperation::ShutdownSignal => "Failed to send shutdown signal to server: "@,
        }
    }

    fn send_failed(&self) -> (r: String)
        ensures
            r@ == self.spec_send_failed(),
    {
        match self {
            ZmqOperation::ListenForModel => "".to_owned(),
            ZmqOperation::AlgorithmInit => "Failed to send algorithm init request: ".to_owned(),
            ZmqOperation::ModelHandshake => "Failed to send GET_MODEL: ".to_owned(),
            ZmqOperation::Trajectory => "Failed to send trajectory: ".to_owned(),
            ZmqOperation::ClientIds => "Failed to send client IDs to server: ".to_owned(),
            ZmqOperation::ScalingWarning => "Failed to send scaling warning: ".to_owned(),
            ZmqOperation::ScalingComplete => "Failed to send scaling complete: ".to_owned(),
            ZmqOperation::ShutdownSignal => "Failed to send shutdown signal to server: ".to_owned(),
        }
    }

    /// What is reported before the reason why receiving failed. Empty where nothing is received.
    pub open spec fn spec_receive_failed(self) -> Seq<char> {
        match self {
            ZmqOperation::ListenForModel => "SUB socket recv error: "@,
            ZmqOperation::AlgorithmInit => ""@,
            ZmqOperation::ModelHandshake => "Failed to receive model: "@,
            ZmqOperation::Trajectory => ""@,
            ZmqOperation::ClientIds => "Failed to receive client IDs from server: "@,
            ZmqOperation::ScalingWarning => "Failed to receive scaling warning response: "@,
            ZmqOperation::ScalingComplete => "Failed to receive scaling complete response: "@,
            ZmqOperation::ShutdownSignal => "Failed to receive shutdown signal from server: "@,
        }
    }

    fn receive_failed(&self) -> (r: String)
        ensures
            r@ == self.spec_receive_failed(),
    {
        match self {
            ZmqOperation::ListenForModel => "SUB socket recv error: ".to_owned(),
            ZmqOperation::AlgorithmInit => "".to_owned(),
            ZmqOperation::ModelHandshake => "Failed to receive model: ".to_owned(),
            ZmqOperation::Trajectory => "".to_owned(),
            ZmqOperation::ClientIds => "Failed to receive client IDs from server: ".to_owned(),
            ZmqOperation::ScalingWarning => "Failed to receive scaling warning response: ".to_owned(),
            ZmqOperation::ScalingComplete => "Failed to receive scaling complete response: ".to_owned(),
            ZmqOperation::ShutdownSignal => "Failed to receive shutdown signal from server: ".to_owned(),
        }
    }

    /// What is reported of a reply with too few parts. Empty where none is awaited.
    pub open spec fn spec_malformed(self) -> Seq<char> {
        match self {
            ZmqOperation::ListenForModel => "Malformed model update response"@,
            ZmqOperation::AlgorithmInit => ""@,
            ZmqOperation::ModelHandshake => "Malformed handshake response"@,
            ZmqOperation::Trajectory => ""@,
            ZmqOperation::ClientIds => "Malformed response"@,
            ZmqOperation::ScalingWarning => "Malformed scaling warning response"@,
            ZmqOperation::ScalingComplete => "Malformed scaling complete response"@,
            ZmqOperation::ShutdownSignal => "Malformed response"@,
        }
    }

    fn malformed(&self) -> (r: String)
        ensures
            r@ == self.spec_malformed(),
    {
        match self {
            ZmqOperation::ListenForModel => "Malformed model update response".to_owned(),
            ZmqOperation::AlgorithmInit => "".to_owned(),
            ZmqOperation::ModelHandshake => "Malformed handshake response".to_owned(),
            ZmqOperation::Trajectory => "".to_owned(),
            ZmqOperation::ClientIds => "Malformed response".to_owned(),
            ZmqOperation::ScalingWarning => "Malformed scaling warning response".to_owned(),
            ZmqOperation::ScalingComplete => "Malformed scaling complete response".to_owned(),
            ZmqOperation::ShutdownSignal => "Malformed response".to_owned(),
        }
    }

    /// What is reported when the server says no. Empty where no yes or no is awaited.
    pub open spec fn spec_refused(self) -> Seq<char> {
        match self {
            ZmqOperation::ListenForModel => ""@,
            ZmqOperation::AlgorithmInit => ""@,
            ZmqOperation::ModelHandshake => ""@,
            ZmqOperation::Trajectory => ""@,
            ZmqOperation::ClientIds => "Server failed to acknowledge client IDs"@,
            ZmqOperation::ScalingWarning => "Server failed to acknowledge scaling warning"@,
            ZmqOperation::ScalingComplete => "Server failed to acknowledge scaling complete"@,
            ZmqOperation::ShutdownSignal => "Server failed to acknowledge shutdown signal"@,
        }
    }

    fn refused(&self) -> (r: String)
        ensures
            r@ == self.spec_refused(),
    {
        match self {
            ZmqOperation::ListenForModel => "".to_owned(),
            ZmqOperation::AlgorithmInit => "".to_owned(),
            ZmqOperation::ModelHandshake => "".to_owned(),
            ZmqOperation::Trajectory => "".to_owned(),
            ZmqOperation::ClientIds => "Server failed to acknowledge client IDs".to_owned(),
            ZmqOperation::ScalingWarning => "Server failed to acknowledge scaling warning".to_owned(),
            ZmqOperation::ScalingComplete => "Server failed to acknowledge scaling complete".to_owned(),
            ZmqOperation::ShutdownSignal => "Server failed to acknowledge shutdown signal".to_owned(),
        }
    }

    /// What is reported before the reason why a reply is no number. Empty where none is awaited.
    pub open spec fn spec_unreadable(self) -> Seq<char> {
        match self {
            ZmqOperation::ListenForModel => ""@,
            ZmqOperation::AlgorithmInit => ""@,
            ZmqOperation::ModelHandshake => ""@,
            ZmqOperation::Trajectory => ""@,
            ZmqOperation::ClientIds => "Failed to parse server response: "@,
            ZmqOperation::ScalingWarning => "Failed to parse scaling warning response: "@,
            ZmqOperation::ScalingComplete => "Failed to parse scaling complete response: "@,
            ZmqOperation::ShutdownSignal => "Failed to parse shutdown signal response: "@,
        }
    }

    fn unreadable(&self) -> (r: String)
        ensures
            r@ == self.spec_unreadable(),
    {
        match self {
            ZmqOperation::ListenForModel => "".to_owned(),
            ZmqOperation::AlgorithmInit => "".to_owned(),
            ZmqOperation::ModelHandshake => "".to_owned(),
            ZmqOperation::Trajectory => "".to_owned(),
            ZmqOperation::ClientIds => "Failed to parse server response: ".to_owned(),
            ZmqOperation::ScalingWarning => "Failed to parse scaling warning response: ".to_owned(),
            ZmqOperation::ScalingComplete => "Failed to parse scaling complete response: ".to_owned(),
            ZmqOperation::ShutdownSignal => "Failed to parse shutdown signal response: ".to_owned(),
        }
    }

    /// The address that an operation uses.
    pub open spec fn spec_address_type(self) -> CacheAddressType {
        match self {
            ZmqOperation::ListenForModel => CacheAddressType::ModelServer,
            ZmqOperation::AlgorithmInit => CacheAddressType::TrainingScalingServer,
            ZmqOperation::ModelHandshake => CacheAddressType::AgentListener,
            ZmqOperation::Trajectory => CacheAddressType::TrajectoryServer,
            ZmqOperation::ClientIds => CacheAddressType::TrainingScalingServer,
            ZmqOperation::ScalingWarning => CacheAddressType::TrainingScalingServer,
            ZmqOperation::ScalingComplete => CacheAddressType::TrainingScalingServer,
            ZmqOperation::ShutdownSignal => CacheAddressType::TrainingScalingServer,
        }
    }

    fn address_type(&self) -> (r: CacheAddressType)
        ensures
            r == self.spec_address_type(),
    {
        match self {
            ZmqOperation::ListenForModel => CacheAddressType::ModelServer,
            ZmqOperation::AlgorithmInit => CacheAddressType::TrainingScalingServer,
            ZmqOperation::ModelHandshake => CacheAddressType::AgentListener,
            ZmqOperation::Trajectory => CacheAddressType::TrajectoryServer,
            ZmqOperation::ClientIds => CacheAddressType::TrainingScalingServer,
            ZmqOperation::ScalingWarning => CacheAddressType::TrainingScalingServer,
            ZmqOperation::ScalingComplete => CacheAddressType::TrainingScalingServer,
            ZmqOperation::ShutdownSignal => CacheAddressType::TrainingScalingServer,
        }
    }

    /// The pool that an operation takes its socket from.
    pub open spec fn spec_socket_type(self) -> SocketPoolType {
        match self {
            ZmqOperation::ListenForModel => SocketPoolType::ModelSub,
            ZmqOperation::AlgorithmInit => SocketPoolType::ScalingDealer,
            ZmqOperation::ModelHandshake => SocketPoolType::ModelDealer,
            ZmqOperation::Trajectory => SocketPoolType::TrajPush,
            ZmqOperation::ClientIds => SocketPoolType::ScalingDealer,
            ZmqOperation::ScalingWarning => SocketPoolType::ScalingDealer,
            ZmqOperation::ScalingComplete => SocketPoolType::ScalingDealer,
            ZmqOperation::ShutdownSignal => SocketPoolType::ScalingDealer,
        }
    }

    /// Whether the server answers. Algorithms and trajectories are sent without awaiting an answer.
    pub open spec fn spec_awaits_reply(self) -> bool {
        !(self == ZmqOperation::AlgorithmInit || self == ZmqOperation::Trajectory)
    }

    fn awaits_reply(&self) -> (r: bool)
        ensures
            r == self.spec_awaits_reply(),
    {
        match self {
            ZmqOperation::AlgorithmInit => false,
            ZmqOperation::Trajectory => false,
            _ => true,
        }
    }

    /// The pool that an operation takes its socket from.
    pub fn socket_type(&self) -> (r: SocketPoolType)
        ensures
            r == self.spec_socket_type(),
    {
        match self {
            ZmqOperation::ListenForModel => SocketPoolType::ModelSub,
            ZmqOperation::AlgorithmInit => SocketPoolType::ScalingDealer,
            ZmqOperation::ModelHandshake => SocketPoolType::ModelDealer,
            ZmqOperation::Trajectory => SocketPoolType::TrajPush,
            ZmqOperation::ClientIds => SocketPoolType::ScalingDealer,
            ZmqOperation::ScalingWarning => SocketPoolType::ScalingDealer,
            ZmqOperation::ScalingComplete => SocketPoolType::ScalingDealer,
            ZmqOperation::ShutdownSignal => SocketPoolType::ScalingDealer,
        }
    }

    /// Whether an error is the operation's own, with this description.
    pub open spec fn is_error(self, e: TransportError, message: Seq<char>) -> bool {
        match self {
            ZmqOperation::ListenForModel => e matches TransportError::ListenForModelError(m) && m@ == message,
            ZmqOperation::AlgorithmInit => e matches TransportError::SendAlgorithmInitRequestError(m) && m@ == message,
            ZmqOperation::ModelHandshake => e matches TransportError::ModelHandshakeError(m) && m@ == message,
            ZmqOperation::Trajectory => e matches TransportError::SendTrajError(m) && m@ == message,
            ZmqOperation::ClientIds => e matches TransportError::SendClientIdsToServerError(m) && m@ == message,
            ZmqOperation::ScalingWarning => e matches TransportError::SendScalingWarningError(m) && m@ == message,
            ZmqOperation::ScalingComplete => e matches TransportError::SendScalingCompleteError(m) && m@ == message,
            ZmqOperation::ShutdownSignal => e matches TransportError::SendShutdownSignalError(m) && m@ == message,
        }
    }

    fn error(&self, message: String) -> (r: TransportError)
        ensures
            self.is_error(r, message@),
    {
        match self {
            ZmqOperation::ListenForModel => TransportError::ListenForModelError(message),
            ZmqOperation::AlgorithmInit => TransportError::SendAlgorithmInitRequestError(message),
            ZmqOperation::ModelHandshake => TransportError::ModelHandshakeError(message),
            ZmqOperation::Trajectory => TransportError::SendTrajError(message),
            ZmqOperation::ClientIds => TransportError::SendClientIdsToServerError(message),
            ZmqOperation::ScalingWarning => TransportError::SendScalingWarningError(message),
            ZmqOperation::ScalingComplete => TransportError::SendScalingCompleteError(message),
            ZmqOperation::ShutdownSignal => TransportError::SendShutdownSignalError(message),
        }
    }
}

/// The sockets that are kept, by pool.
pub struct ZmqSocketPool {
    pub inference_dealer_socket: Option<DashMap<u128, u64>>,
    pub model_dealer_socket: Option<DashMap<u128, u64>>,
    pub model_sub_socket: Option<DashMap<u128, u64>>,
    pub traj_push_socket: Option<DashMap<u128, u64>>,
    pub scaling_dealer_socket: Option<DashMap<u128, u64>>,
}

impl ZmqSocketPool {
    /// The sockets of a pool.
    pub open spec fn of(self, t: SocketPoolType) -> Option<Map<u128, u64>> {
        let pool = match t {
            SocketPoolType::InferenceDealer => self.inference_dealer_socket,
            SocketPoolType::ModelDealer => self.model_dealer_socket,
            SocketPoolType::ModelSub => self.model_sub_socket,
            SocketPoolType::TrajPush => self.traj_push_socket,
            SocketPoolType::ScalingDealer => self.scaling_dealer_socket,
        };
        match pool {
            Some(m) => Some(tokens(m)),
            None => None,
        }
    }

    fn get(&self, t: SocketPoolType) -> (r: &Option<DashMap<u128, u64>>)
        ensures
            self.of(t) == (match *r {
                Some(m) => Some(tokens(m)),
                None => None,
            }),
    {
        match t {
            SocketPoolType::InferenceDealer => &self.inference_dealer_socket,
            SocketPoolType::ModelDealer => &self.model_dealer_socket,
            SocketPoolType::ModelSub => &self.model_sub_socket,
            SocketPoolType::TrajPush => &self.traj_push_socket,
            SocketPoolType::ScalingDealer => &self.scaling_dealer_socket,
        }
    }
}

/// The sockets, addresses and listeners of a client.
pub struct ZmqPool {
    pub client_namespace: String,
    pub cached_addresses: Option<DashMap<u128, SharedTransportAddresses>>,
    pub cached_sockets: ZmqSocketPool,
    pub listeners: ModelListeners,
    pub transport_shutting_down: bool,
}

/// One of the addresses.
pub open spec fn address_at(a: SharedTransportAddresses, t: CacheAddressType) -> String {
    match t {
        CacheAddressType::InferenceServer => a.zmq_inference_addresses.inference_server_address,
        CacheAddressType::AgentListener => a.zmq_training_addresses.agent_listener_address,
        CacheAddressType::ModelServer => a.zmq_training_addresses.model_server_address,
        CacheAddressType::TrajectoryServer => a.zmq_training_addresses.trajectory_server_address,
        CacheAddressType::InferenceScalingServer =>
            a.zmq_inference_addresses.inference_scaling_server_address,
        CacheAddressType::TrainingScalingServer =>
            a.zmq_training_addresses.training_scaling_server_address,
    }
}

/// The addresses with one of them replaced.
pub open spec fn with_address(
    a: SharedTransportAddresses,
    t: CacheAddressType,
    s: String,
) -> SharedTransportAddresses {
    let i = a.zmq_inference_addresses;
    let n = a.zmq_training_addresses;
    match t {
        CacheAddressType::InferenceServer => SharedTransportAddresses {
            zmq_inference_addresses: SharedZmqInferenceAddresses {
                inference_server_address: s,
                ..i
            },
            ..a
        },
        CacheAddressType::InferenceScalingServer => SharedTransportAddresses {
            zmq_inference_addresses: SharedZmqInferenceAddresses {
                inference_scaling_server_address: s,
                ..i
            },
            ..a
        },
        CacheAddressType::AgentListener => SharedTransportAddresses {
            zmq_training_addresses: SharedZmqTrainingAddresses { agent_listener_address: s, ..n },
            ..a
        },
        CacheAddressType::ModelServer => SharedTransportAddresses {
            zmq_training_addresses: SharedZmqTrainingAddresses { model_server_address: s, ..n },
            ..a
        },
        CacheAddressType::TrajectoryServer => SharedTransportAddresses {
            zmq_training_addresses: SharedZmqTrainingAddresses { trajectory_server_address: s, ..n },
            ..a
        },
        CacheAddressType::TrainingScalingServer => SharedTransportAddresses {
            zmq_training_addresses: SharedZmqTrainingAddresses {
                training_scaling_server_address: s,
                ..n
            },
            ..a
        },
    }
}

/// Replacing one address leaves every other as it was.
pub proof fn law_one_address_is_replaced(
    a: SharedTransportAddresses,
    t: CacheAddressType,
    s: String,
    other: CacheAddressType,
)
    ensures
        address_at(with_address(a, t, s), t) == s,
        other != t ==> address_at(with_address(a, t, s), other) == address_at(a, other),
        with_address(a, t, s).nats_inference_address == a.nats_inference_address,
        with_address(a, t, s).nats_training_address == a.nats_training_address,
{
}

/// An address that was taken over for an identity is not taken over again: the same address needs
/// no further socket, and nothing changes.
pub proof fn law_same_address_needs_no_socket(
    before: ZmqPool,
    identity: u128,
    address: Seq<char>,
    t: CacheAddressType,
    mid: ZmqPool,
    first: Result<bool, ZmqPoolError>,
    after: ZmqPool,
    second: Result<bool, ZmqPoolError>,
)
    requires
        before.updates(identity, address, t, mid, first),
        first is Ok,
        mid.updates(identity, address, t, after, second),
    ensures
        second == Ok::<bool, ZmqPoolError>(false),
        after.cached() == mid.cached(),
{
}

/// Taking over an address leaves what is kept for other identities as it was.
pub proof fn law_identities_are_apart(
    before: ZmqPool,
    identity: u128,
    address: Seq<char>,
    t: CacheAddressType,
    after: ZmqPool,
    r: Result<bool, ZmqPoolError>,
    other: u128,
)
    requires
        before.updates(identity, address, t, after, r),
        before.cached() is Some,
        other != identity,
    ensures
        after.cached() is Some,
        after.cached()->0.contains_key(other) == before.cached()->0.contains_key(other),
        before.cached()->0.contains_key(other) ==> after.cached()->0[other]
            == before.cached()->0[other],
{
}

fn address_ref(a: &SharedTransportAddresses, t: CacheAddressType) -> (r: &String)
    ensures
        *r == address_at(*a, t),
{
    match t {
        CacheAddressType::InferenceServer => &a.zmq_inference_addresses.inference_server_address,
        CacheAddressType::AgentListener => &a.zmq_training_addresses.agent_listener_address,
        CacheAddressType::ModelServer => &a.zmq_training_addresses.model_server_address,
        CacheAddressType::TrajectoryServer => &a.zmq_training_addresses.trajectory_server_address,
        CacheAddressType::InferenceScalingServer =>
            &a.zmq_inference_addresses.inference_scaling_server_address,
        CacheAddressType::TrainingScalingServer =>
            &a.zmq_training_addresses.training_scaling_server_address,
    }
}

fn replace_address(a: SharedTransportAddresses, t: CacheAddressType, s: String) -> (r:
    SharedTransportAddresses)
    ensures
        r == with_address(a, t, s),
{
    let mut a = a;
    match t {
        CacheAddressType::InferenceServer => {
            a.zmq_inference_addresses.inference_server_address = s;
        },
        CacheAddressType::AgentListener => {
            a.zmq_training_addresses.agent_listener_address = s;
        },
        CacheAddressType::ModelServer => {
            a.zmq_training_addresses.model_server_address = s;
        },
        CacheAddressType::TrajectoryServer => {
            a.zmq_training_addresses.trajectory_server_address = s;
        },
        CacheAddressType::InferenceScalingServer => {
            a.zmq_inference_addresses.inference_scaling_server_address = s;
        },
        CacheAddressType::TrainingScalingServer => {
            a.zmq_training_addresses.training_scaling_server_address = s;
        },
    }
    a
}

impl ZmqPool {
    /// The listeners are in order.
    pub open spec fn wf(self) -> bool {
        self.listeners.wf()
    }

    /// The addresses that are kept, if any are.
    pub open spec fn cached(self) -> Option<Map<u128, SharedTransportAddresses>> {
        match self.cached_addresses {
            Some(m) => Some(addresses(m)),
            None => None,
        }
    }

    pub fn new(client_namespace: String) -> (r: Self)
        ensures
            r.wf(),
            r.client_namespace == client_namespace,
            r.cached() is None,
            forall|t: SocketPoolType| r.cached_sockets.of(t) is None,
            forall|id: u128| !r.listeners.registered(id),
            !r.transport_shutting_down,
    {
        ZmqPool {
            client_namespace,
            cached_addresses: None,
            cached_sockets: ZmqSocketPool {
                inference_dealer_socket: None,
                model_dealer_socket: None,
                model_sub_socket: None,
                traj_push_socket: None,
                scaling_dealer_socket: None,
            },
            listeners: ModelListeners::new(),
            transport_shutting_down: false,
        }
    }

    /// Where the identities of sockets of a kind are reserved.
    pub fn identity_slot(&self, kind: SocketKind) -> (r: IdSlot)
        ensures
            r.reads(
                self.client_namespace@,
                ZMQ_CLIENT_CONTEXT@,
                kind.spec_identity_base(),
                100,
            ),
    {
        IdSlot {
            namespace: self.client_namespace.clone(),
            context: ZMQ_CLIENT_CONTEXT.to_owned(),
            base: kind.identity_base(),
            max_retries: 100,
        }
    }

    /// Registers an identity for a socket that is to be made. Whether a unique one is found depends
    /// on chance and on the registry.
    pub fn reserve_identity(&self, kind: SocketKind) -> (r: Result<u128, ZmqPoolError>)
        ensures
            match r {
                Ok(id) => id as int / 0x1_0000_0000_0000_0000_0000_0000 == kind.spec_identity_base(),
                Err(e) => e matches ZmqPoolError::UuidPoolError(why) && refuses_reservation(
                    self.client_namespace@,
                    100,
                    pool_error_chars(why),
                ),
            },
    {
        let slot = self.identity_slot(kind);
        match reserve_slot(&slot) {
            Ok(id) => Ok(id),
            Err(e) => Err(ZmqPoolError::UuidPoolError(e)),
        }
    }

    /// Marks the transport as shutting down and stops all listeners that are registered.
    pub fn begin_shutdown(&mut self)
        requires
            old(self).wf(),
        ensures
            final(self).wf(),
            final(self).transport_shutting_down,
            *final(self) == (ZmqPool {
                transport_shutting_down: true,
                listeners: final(self).listeners,
                ..*old(self)
            }),
            old(self).listeners.stops_all(final(self).listeners),
    {
        self.transport_shutting_down = true;
        self.listeners.stop_all();
    }

    pub fn is_shutting_down(&self) -> (r: bool)
        ensures
            r == self.transport_shutting_down,
    {
        self.transport_shutting_down
    }

    /// What taking over an address for an identity leads to.
    pub open spec fn updates(
        self,
        identity: u128,
        address: Seq<char>,
        t: CacheAddressType,
        after: Self,
        r: Result<bool, ZmqPoolError>,
    ) -> bool {
        &&& after == (ZmqPool { cached_addresses: after.cached_addresses, ..self })
        &&& match self.cached() {
            Some(kept) if kept.contains_key(identity) => {
                let known = kept[identity];
                if address_at(known, t)@ == address {
                    r == Ok::<bool, ZmqPoolError>(false) && after.cached() == self.cached()
                } else {
                    &&& r == Ok::<bool, ZmqPoolError>(true)
                    &&& after.cached() is Some
                    &&& after.cached()->0.contains_key(identity)
                    &&& address_at(after.cached()->0[identity], t)@ == address
                    &&& after.cached()->0 == kept.insert(
                        identity,
                        with_address(known, t, address_at(after.cached()->0[identity], t)),
                    )
                }
            },
            _ => {
                &&& r matches Err(ZmqPoolError::ReadError(m))
                &&& m@ == "Cached addresses not available"@
                &&& after.cached() == self.cached()
            },
        }
    }

    /// Takes over the address that is used for `identity`. Tells whether it is another than before,
    /// so that a new socket is needed; then it alone is replaced. Nothing can be taken over for an
    /// identity of which no addresses are kept.
    pub fn update_cache(
        &mut self,
        identity: u128,
        new_address: &str,
        address_type: CacheAddressType,
    ) -> (r: Result<bool, ZmqPoolError>)
        ensures
            old(self).updates(identity, new_address@, address_type, *final(self), r),
    {
        match &mut self.cached_addresses {
            None => Err(ZmqPoolError::ReadError("Cached addresses not available".to_owned())),
            Some(kept) => match addresses_get(kept, identity) {
                None => Err(ZmqPoolError::ReadError("Cached addresses not available".to_owned())),
                Some(before) => {
                    if same_text(address_ref(&before, address_type).as_str(), new_address) {
                        return Ok(false);
                    }
                    let text = new_address.to_owned();
                    let updated = replace_address(before, address_type, text);
                    addresses_insert(kept, identity, updated);
                    Ok(true)
                },
            },
        }
    }

    /// What keeping a socket that was made for an identity leads to, or that none was made.
    pub open spec fn stores(
        self,
        identity: u128,
        socket_type: SocketPoolType,
        created: Result<u64, String>,
        after: Self,
        r: Result<bool, ZmqPoolError>,
    ) -> bool {
        &&& after == (ZmqPool { cached_sockets: after.cached_sockets, ..self })
        &&& forall|t: SocketPoolType|
            t != socket_type ==> #[trigger] after.cached_sockets.of(t) == self.cached_sockets.of(t)
        &&& match created {
            Err(e) => {
                &&& r matches Err(ZmqPoolError::InitializationError(m))
                &&& m@ == "Failed to create "@ + socket_type.spec_name() + " socket: "@ + e@
                &&& after.cached_sockets.of(socket_type) == self.cached_sockets.of(socket_type)
            },
            Ok(socket) => match self.cached_sockets.of(socket_type) {
                None => {
                    &&& r matches Err(ZmqPoolError::ReadError(m))
                    &&& m@ == "Socket pool not initialized"@
                    &&& after.cached_sockets.of(socket_type) is None
                },
                Some(sockets) => {
                    &&& r == Ok::<bool, ZmqPoolError>(true)
                    &&& after.cached_sockets.of(socket_type) == Some(
                        sockets.insert(identity, socket),
                    )
                },
            },
        }
    }

    /// Keeps a socket that was made for `identity`, or reports why none was made.
    pub fn store_socket(
        &mut self,
        identity: u128,
        socket_type: SocketPoolType,
        created: Result<u64, String>,
    ) -> (r: Result<bool, ZmqPoolError>)
        ensures
            old(self).stores(identity, socket_type, created, *final(self), r),
    {
        let socket: u64 = match created {
            Ok(socket) => socket,
            Err(e) => {
                let mut m = "Failed to create ".to_owned();
                let name = socket_type.name();
                m.append(name.as_str());
                m.append(" socket: ");
                m.append(e.as_str());
                return Err(ZmqPoolError::InitializationError(m));
            },
        };
        let stored: bool = match socket_type {
            SocketPoolType::InferenceDealer => put_socket(
                &mut self.cached_sockets.inference_dealer_socket,
                identity,
                socket,
            ),
            SocketPoolType::ModelDealer => put_socket(
                &mut self.cached_sockets.model_dealer_socket,
                identity,
                socket,
            ),
            SocketPoolType::ModelSub => put_socket(
                &mut self.cached_sockets.model_sub_socket,
                identity,
                socket,
            ),
            SocketPoolType::TrajPush => put_socket(
                &mut self.cached_sockets.traj_push_socket,
                identity,
                socket,
            ),
            SocketPoolType::ScalingDealer => put_socket(
                &mut self.cached_sockets.scaling_dealer_socket,
                identity,
                socket,
            ),
        };
        if stored {
            Ok(true)
        } else {
            Err(ZmqPoolError::ReadError("Socket pool not initialized".to_owned()))
        }
    }

    /// What looking for the socket that an operation uses for an identity leads to.
    pub open spec fn finds(
        self,
        operation: ZmqOperation,
        identity: u128,
        r: Result<u64, TransportError>,
    ) -> bool {
        match self.cached_sockets.of(operation.spec_socket_type()) {
            None => r matches Err(e) && operation.is_error(e, operation.spec_no_pool()),
            Some(sockets) => if sockets.contains_key(identity) {
                r == Ok::<u64, TransportError>(sockets[identity])
            } else {
                r matches Err(e) && operation.is_error(
                    e,
                    operation.spec_no_socket() + uuid_chars(identity),
                )
            },
        }
    }

    /// The socket that an operation uses for `identity`.
    pub fn find_socket(&self, operation: ZmqOperation, identity: u128) -> (r: Result<
        u64,
        TransportError,
    >)
        ensures
            self.finds(operation, identity, r),
    {
        match self.cached_sockets.get(operation.socket_type()) {
            None => Err(operation.error(operation.no_pool())),
            Some(sockets) => match tokens_get(sockets, identity) {
                Some(socket) => Ok(socket),
                None => {
                    let mut m = operation.no_socket();
                    let id_text = uuid_text(identity);
                    m.append(id_text.as_str());
                    Err(operation.error(m))
                },
            },
        }
    }
}

/// A socket that was kept for an identity is the one that an operation of its kind finds, and those
/// of other identities are found as before.
pub proof fn law_stored_socket_is_found(
    pool: ZmqPool,
    operation: ZmqOperation,
    identity: u128,
    socket: u64,
    after: ZmqPool,
    stored: Result<bool, ZmqPoolError>,
    found: Result<u64, TransportError>,
    other: u128,
    found_before: Result<u64, TransportError>,
    found_after: Result<u64, TransportError>,
)
    requires
        pool.stores(identity, operation.spec_socket_type(), Ok(socket), after, stored),
        stored is Ok,
        after.finds(operation, identity, found),
        other != identity,
        pool.finds(operation, other, found_before),
        after.finds(operation, other, found_after),
    ensures
        found == Ok::<u64, TransportError>(socket),
        found_before is Ok <==> found_after is Ok,
        found_before is Ok ==> found_after == found_before,
{
}

fn put_socket(pool: &mut Option<DashMap<u128, u64>>, identity: u128, socket: u64) -> (r: bool)
    ensures
        r == (*old(pool) is Some),
        *old(pool) is None ==> *final(pool) is None,
        *old(pool) matches Some(m) ==> *final(pool) is Some && tokens((*final(pool))->0) == tokens(
            m,
        ).insert(identity, socket),
{
    match pool {
        None => false,
        Some(m) => {
            tokens_insert(m, identity, socket);
            true
        },
    }
}

/// What a number in a reply means.
#[derive(Clone, Copy, Debug, PartialEq, Eq, Structural)]
pub enum ServerResponse {
    Success,
    Failure,
}

impl ServerResponse {
    /// Nought is success, everything else failure.
    pub fn from_i64(value: i64) -> (r: Self)
        ensures
            r == (if value == 0 {
                ServerResponse::Success
            } else {
                ServerResponse::Failure
            }),
    {
        match value {
            0 => ServerResponse::Success,
            1 => ServerResponse::Failure,
            _ => ServerResponse::Failure,
        }
    }
}

/// What the text of a reply means for an operation that awaits a yes or no.
pub open spec fn reply_means(operation: ZmqOperation, text: Seq<char>, r: Result<(), TransportError>) -> bool {
    match parsed_i64(text) {
        Ok(value) => if value == 0 {
            r is Ok
        } else {
            r matches Err(e) && operation.is_error(e, operation.spec_refused())
        },
        Err(fault) => r matches Err(e) && operation.is_error(
            e,
            operation.spec_unreadable() + fault.spec_message(),
        ),
    }
}

/// Reads the text of a reply.
pub fn acknowledge(operation: ZmqOperation, text: &str) -> (r: Result<(), TransportError>)
    ensures
        reply_means(operation, text@, r),
{
    match parse_i64(text) {
        Ok(value) => match ServerResponse::from_i64(value) {
            ServerResponse::Success => Ok(()),
            ServerResponse::Failure => Err(operation.error(operation.refused())),
        },
        Err(fault) => {
            let mut m = operation.unreadable();
            let why = fault.message();
            m.append(why.as_str());
            Err(operation.error(m))
        },
    }
}

/// What a reply means that holds a yes or no in its second part, or that none was received.
pub open spec fn acknowledgement_means(
    operation: ZmqOperation,
    received: Result<Vec<Vec<u8>>, String>,
    r: Result<(), TransportError>,
) -> bool {
    match received {
        Err(why) => r matches Err(e) && operation.is_error(
            e,
            operation.spec_receive_failed() + why@,
        ),
        Ok(parts) => if parts@.len() < 2 {
            r matches Err(e) && operation.is_error(e, operation.spec_malformed())
        } else {
            reply_means(operation, lossy_utf8(parts@[1]@), r)
        },
    }
}

/// Reads a reply that holds a yes or no in its second part, or reports why none was received.
pub fn received_acknowledgement(
    operation: ZmqOperation,
    received: Result<Vec<Vec<u8>>, String>,
) -> (r: Result<(), TransportError>)
    ensures
        acknowledgement_means(operation, received, r),
{
    match received {
        Err(why) => {
            let mut m = operation.receive_failed();
            m.append(why.as_str());
            Err(operation.error(m))
        },
        Ok(parts) => {
            if parts.len() < 2 {
                return Err(operation.error(operation.malformed()));
            }
            let text = read_utf8_lossy(&parts[1]);
            acknowledge(operation, text.as_str())
        },
    }
}

/// What a reply means that holds a model in its second part, or that none was received.
pub open spec fn model_reply_means(
    received: Result<Vec<Vec<u8>>, String>,
    r: Result<Vec<u8>, TransportError>,
) -> bool {
    match received {
        Err(why) => r matches Err(e) && ZmqOperation::ModelHandshake.is_error(
            e,
            "Failed to receive model: "@ + why@,
        ),
        Ok(parts) => if parts@.len() < 2 {
            r matches Err(e) && ZmqOperation::ModelHandshake.is_error(
                e,
                "Malformed handshake response"@,
            )
        } else {
            r matches Ok(model) && model@ == parts@[1]@
        },
    }
}

/// Reads a reply that holds a model in its second part, or reports why none was received.
pub fn received_model(received: Result<Vec<Vec<u8>>, String>) -> (r: Result<Vec<u8>, TransportError>)
    ensures
        model_reply_means(received, r),
{
    let operation = ZmqOperation::ModelHandshake;
    match received {
        Err(why) => {
            let mut m = operation.receive_failed();
            m.append(why.as_str());
            Err(operation.error(m))
        },
        Ok(mut parts) => {
            if parts.len() < 2 {
                return Err(operation.error(operation.malformed()));
            }
            Ok(parts.remove(1))
        },
    }
}

/// The steps in which a model that was received is made ready.
#[derive(Clone, Copy, Debug, PartialEq, Eq, Structural)]
pub enum ModelFileStep {
    CreateFile,
    WriteFile,
    Load,
    Validate,
}

impl ModelFileStep {
    /// What is reported before the reason why a step failed.
    pub open spec fn spec_failure(self) -> Seq<char> {
        match self {
            ModelFileStep::CreateFile => "Failed to create temp file: "@,
            ModelFileStep::WriteFile => "Failed to write model to temp file: "@,
            ModelFileStep::Load => "Failed to load model: "@,
            ModelFileStep::Validate => "Failed to validate model: "@,
        }
    }

    /// Reports why a step failed.
    pub fn failed(&self, why: &str) -> (r: TransportError)
        ensures
            ZmqOperation::ModelHandshake.is_error(r, self.spec_failure() + why@),
    {
        let mut m = match self {
            ModelFileStep::CreateFile => "Failed to create temp file: ".to_owned(),
            ModelFileStep::WriteFile => "Failed to write model to temp file: ".to_owned(),
            ModelFileStep::Load => "Failed to load model: ".to_owned(),
            ModelFileStep::Validate => "Failed to validate model: ".to_owned(),
        };
        m.append(why);
        ZmqOperation::ModelHandshake.error(m)
    }
}

/// Reports why a request was not sent.
pub fn sent(operation: ZmqOperation, outcome: Result<(), String>) -> (r: Result<(), TransportError>)
    ensures
        match outcome {
            Ok(_) => r is Ok,
            Err(why) => r matches Err(e) && operation.is_error(e, operation.spec_send_failed() + why@),
        },
{
    match outcome {
        Ok(_) => Ok(()),
        Err(why) => {
            let mut m = operation.send_failed();
            m.append(why.as_str());
            Err(operation.error(m))
        },
    }
}

/// Reports why a socket could not be used.
pub fn locked(operation: ZmqOperation, outcome: Result<(), String>) -> (r: Result<(), TransportError>)
    ensures
        match outcome {
            Ok(_) => r is Ok,
            Err(why) => r matches Err(e) && operation.is_error(e, operation.spec_lock_failed() + why@),
        },
{
    match outcome {
        Ok(_) => Ok(()),
        Err(why) => {
            let mut m = operation.lock_failed();
            m.append(why.as_str());
            Err(operation.error(m))
        },
    }
}

/// The bytes of a text.
pub open spec fn bytes_of(s: Seq<char>) -> Seq<u8> {
    vstd::utf8::encode_utf8(s)
}

/// The contents of a list of frames.
pub open spec fn frame_views(frames: Seq<Vec<u8>>) -> Seq<Seq<u8>> {
    frames.map_values(|f: Vec<u8>| f@)
}

/// The frames of a request: an empty one, the transport and the sender under the sender's
/// namespace, and what the request adds.
pub open spec fn request_frames(transport: IdEntry, entry: IdEntry, rest: Seq<Seq<u8>>) -> Seq<Seq<u8>> {
    seq![
        Seq::<u8>::empty(),
        bytes_of(entry_chars(entry.namespace@, transport.context@, transport.id, ":"@)),
        bytes_of(entry_chars(entry.namespace@, entry.context@, entry.id, ":"@)),
    ] + rest
}

fn make_frames(transport: &IdEntry, entry: &IdEntry, rest: Vec<Vec<u8>>) -> (r: Vec<Vec<u8>>)
    ensures
        frame_views(r@) == request_frames(*transport, *entry, frame_views(rest@)),
{
    let mut rest = rest;
    let ghost added = frame_views(rest@);
    let mut frames: Vec<Vec<u8>> = Vec::new();
    let sender = entry_text(
        entry.namespace.as_str(),
        transport.context.as_str(),
        transport.id,
        ":",
    );
    let party = entry_text(entry.namespace.as_str(), entry.context.as_str(), entry.id, ":");
    frames.push(Vec::new());
    frames.push(sender.as_str().as_bytes_vec());
    frames.push(party.as_str().as_bytes_vec());
    frames.append(&mut rest);
    proof {
        assert(frame_views(frames@) =~= request_frames(*transport, *entry, added));
    }
    frames
}

/// A request that is ready to be sent.
pub struct ZmqRequest {
    pub operation: ZmqOperation,
    /// Whose socket is used.
    pub identity: u128,
    /// Whether that socket has still to be made.
    pub needs_socket: bool,
    /// What is sent through the socket, or why nothing can be.
    pub frames: Result<Vec<Vec<u8>>, TransportError>,
}

/// What a request adds to its frames, or why it cannot.
pub open spec fn added_frames(rest: Result<Vec<Vec<u8>>, String>) -> Result<Seq<Seq<u8>>, Seq<char>> {
    match rest {
        Ok(frames) => Ok(frame_views(frames@)),
        Err(why) => Err(why@),
    }
}

/// How far a request has come.
#[derive(Clone, Copy, Debug, PartialEq, Eq, Structural)]
pub enum RequestStage {
    Prepared,
    Socket,
    Send,
    Receive,
    Over,
}

/// A request on its way to a server.
pub struct ZmqRun {
    pub stage: RequestStage,
    pub operation: ZmqOperation,
    pub identity: u128,
    pub needs_socket: bool,
    /// What is to be sent, until it is.
    pub frames: Option<Result<Vec<Vec<u8>>, TransportError>>,
    /// The socket in use, once it is known.
    pub socket: u64,
}

/// What came of using a socket.
pub enum SocketUse<T> {
    /// Somebody else uses it.
    NotLocked(String),
    Failed(String),
    Done(T),
}

/// What happens to a request.
pub enum ZmqEvent {
    Begun,
    SocketMade(Result<u64, String>),
    Sent(SocketUse<()>),
    Received(SocketUse<Vec<Vec<u8>>>),
}

/// What is done next with a request.
pub enum ZmqAction {
    MakeSocket(SocketPoolType),
    Send { socket: u64, frames: Vec<Vec<u8>> },
    Receive { socket: u64 },
    /// Done; a handshake brings the bytes of a model.
    End(Result<Option<Vec<u8>>, TransportError>),
}

impl ZmqRun {
    /// A request that has been prepared.
    pub fn new(request: ZmqRequest) -> (r: Self)
        ensures
            r == (ZmqRun {
                stage: RequestStage::Prepared,
                operation: request.operation,
                identity: request.identity,
                needs_socket: request.needs_socket,
                frames: Some(request.frames),
                socket: 0,
            }),
    {
        ZmqRun {
            stage: RequestStage::Prepared,
            operation: request.operation,
            identity: request.identity,
            needs_socket: request.needs_socket,
            frames: Some(request.frames),
            socket: 0,
        }
    }

    /// Whether an event can happen to the request.
    pub open spec fn expects(self, event: ZmqEvent) -> bool {
        match event {
            ZmqEvent::Begun => self.stage == RequestStage::Prepared && self.frames is Some,
            ZmqEvent::SocketMade(_) => self.stage == RequestStage::Socket && self.frames is Some,
            ZmqEvent::Sent(_) => self.stage == RequestStage::Send,
            ZmqEvent::Received(_) => self.stage == RequestStage::Receive,
        }
    }

    /// Whether the request has ended, with this outcome.
    pub open spec fn ends(
        self,
        after: Self,
        outcome: Result<Option<Vec<u8>>, TransportError>,
        r: ZmqAction,
    ) -> bool {
        &&& after == (ZmqRun { stage: RequestStage::Over, frames: None, ..self })
        &&& r == ZmqAction::End(outcome)
    }

    /// Whether the request has ended with an error of its operation that says this.
    pub open spec fn fails(self, after: Self, message: Seq<char>, r: ZmqAction) -> bool {
        exists|e: TransportError| #[trigger]
            self.operation.is_error(e, message) && self.ends(after, Err(e), r)
    }

    /// What follows once a socket is there: the frames are sent, unless there are none or no socket
    /// is found.
    pub open spec fn sends(self, pool: ZmqPool, after: Self, r: ZmqAction) -> bool {
        match self.frames->0 {
            Err(e) => self.ends(after, Err(e), r),
            Ok(frames) => exists|found: Result<u64, TransportError>| #[trigger]
                pool.finds(self.operation, self.identity, found) && match found {
                    Err(e) => self.ends(after, Err(e), r),
                    Ok(socket) => {
                        &&& after == (ZmqRun {
                            stage: RequestStage::Send,
                            frames: None,
                            socket,
                            ..self
                        })
                        &&& r == (ZmqAction::Send { socket, frames })
                    },
                },
        }
    }

    /// What an event leads to: what becomes of the request and of the pool, and what is done next.
    pub open spec fn leads(
        self,
        pool: ZmqPool,
        event: ZmqEvent,
        after: Self,
        pool_after: ZmqPool,
        r: ZmqAction,
    ) -> bool {
        match event {
            ZmqEvent::Begun => {
                &&& pool_after == pool
                &&& if self.needs_socket {
                    &&& after == (ZmqRun { stage: RequestStage::Socket, ..self })
                    &&& r == ZmqAction::MakeSocket(self.operation.spec_socket_type())
                } else {
                    self.sends(pool, after, r)
                }
            },
            ZmqEvent::SocketMade(created) => exists|stored: Result<bool, ZmqPoolError>| #[trigger]
                pool.stores(
                    self.identity,
                    self.operation.spec_socket_type(),
                    created,
                    pool_after,
                    stored,
                ) && match stored {
                    Err(e) => self.ends(after, Err(TransportError::ZmqPool(e)), r),
                    Ok(_) => self.sends(pool_after, after, r),
                },
            ZmqEvent::Sent(outcome) => {
                &&& pool_after == pool
                &&& match outcome {
                    SocketUse::NotLocked(why) => self.fails(
                        after,
                        self.operation.spec_lock_failed() + why@,
                        r,
                    ),
                    SocketUse::Failed(why) => self.fails(
                        after,
                        self.operation.spec_send_failed() + why@,
                        r,
                    ),
                    SocketUse::Done(_) => if self.operation.spec_awaits_reply() {
                        &&& after == (ZmqRun { stage: RequestStage::Receive, ..self })
                        &&& r == (ZmqAction::Receive { socket: self.socket })
                    } else {
                        self.ends(after, Ok(None), r)
                    },
                }
            },
            ZmqEvent::Received(outcome) => {
                &&& pool_after == pool
                &&& match outcome {
                    SocketUse::NotLocked(why) => self.fails(
                        after,
                        self.operation.spec_lock_failed() + why@,
                        r,
                    ),
                    SocketUse::Failed(why) => self.reads(Err(why), after, r),
                    SocketUse::Done(parts) => self.reads(Ok(parts), after, r),
                }
            },
        }
    }

    /// What a reply leads to, or that none was received.
    pub open spec fn reads(
        self,
        received: Result<Vec<Vec<u8>>, String>,
        after: Self,
        r: ZmqAction,
    ) -> bool {
        if self.operation == ZmqOperation::ModelHandshake {
            exists|reply: Result<Vec<u8>, TransportError>| #[trigger]
                model_reply_means(received, reply) && self.ends(
                    after,
                    match reply {
                        Ok(model) => Ok(Some(model)),
                        Err(e) => Err(e),
                    },
                    r,
                )
        } else {
            exists|reply: Result<(), TransportError>| #[trigger]
                acknowledgement_means(self.operation, received, reply) && self.ends(
                    after,
                    match reply {
                        Ok(_) => Ok(None),
                        Err(e) => Err(e),
                    },
                    r,
                )
        }
    }

    fn end(&mut self, outcome: Result<Option<Vec<u8>>, TransportError>) -> (r: ZmqAction)
        ensures
            old(self).ends(*final(self), outcome, r),
    {
        self.stage = RequestStage::Over;
        self.frames = None;
        ZmqAction::End(outcome)
    }

    fn send(&mut self, pool: &ZmqPool) -> (r: ZmqAction)
        requires
            old(self).frames is Some,
        ensures
            old(self).sends(*pool, *final(self), r),
    {
        let frames = match self.frames.take() {
            Some(Ok(frames)) => frames,
            Some(Err(e)) => {
                return self.end(Err(e));
            },
            None => {
                return self.end(Ok(None));
            },
        };
        let found = pool.find_socket(self.operation, self.identity);
        proof {
            assert(pool.finds(self.operation, self.identity, found));
        }
        match found {
            Ok(socket) => {
                self.socket = socket;
                self.stage = RequestStage::Send;
                ZmqAction::Send { socket, frames }
            },
            Err(e) => self.end(Err(e)),
        }
    }

    fn read(&mut self, received: Result<Vec<Vec<u8>>, String>) -> (r: ZmqAction)
        ensures
            old(self).reads(received, *final(self), r),
    {
        let ghost got = received;
        if self.operation == ZmqOperation::ModelHandshake {
            let reply = received_model(received);
            proof {
                assert(model_reply_means(got, reply));
            }
            match reply {
                Ok(model) => self.end(Ok(Some(model))),
                Err(e) => self.end(Err(e)),
            }
        } else {
            let reply = received_acknowledgement(self.operation, received);
            proof {
                assert(acknowledgement_means(self.operation, got, reply));
            }
            match reply {
                Ok(_) => self.end(Ok(None)),
                Err(e) => self.end(Err(e)),
            }
        }
    }

    /// Decides what an event leads to.
    pub fn step(&mut self, pool: &mut ZmqPool, event: ZmqEvent) -> (r: ZmqAction)
        requires
            old(self).expects(event),
        ensures
            old(self).leads(*old(pool), event, *final(self), *final(pool), r),
    {
        let operation = self.operation;
        match event {
            ZmqEvent::Begun => {
                if self.needs_socket {
                    self.stage = RequestStage::Socket;
                    ZmqAction::MakeSocket(operation.socket_type())
                } else {
                    self.send(pool)
                }
            },
            ZmqEvent::SocketMade(created) => {
                let stored = pool.store_socket(self.identity, operation.socket_type(), created);
                proof {
                    assert(old(pool).stores(
                        self.identity,
                        operation.spec_socket_type(),
                        created,
                        *pool,
                        stored,
                    ));
                }
                match stored {
                    Err(e) => self.end(Err(TransportError::ZmqPool(e))),
                    Ok(_) => self.send(pool),
                }
            },
            ZmqEvent::Sent(SocketUse::NotLocked(why)) => match locked(operation, Err(why)) {
                Err(e) => self.end(Err(e)),
                Ok(_) => self.end(Ok(None)),
            },
            ZmqEvent::Sent(SocketUse::Failed(why)) => match sent(operation, Err(why)) {
                Err(e) => self.end(Err(e)),
                Ok(_) => self.end(Ok(None)),
            },
            ZmqEvent::Sent(SocketUse::Done(_)) => {
                if operation.awaits_reply() {
                    self.stage = RequestStage::Receive;
                    ZmqAction::Receive { socket: self.socket }
                } else {
                    self.end(Ok(None))
                }
            },
            ZmqEvent::Received(SocketUse::NotLocked(why)) => match locked(operation, Err(why)) {
                Err(e) => self.end(Err(e)),
                Ok(_) => self.end(Ok(None)),
            },
            ZmqEvent::Received(SocketUse::Failed(why)) => self.read(Err(why)),
            ZmqEvent::Received(SocketUse::Done(parts)) => self.read(Ok(parts)),
        }
    }
}

/// Nothing is sent of a request that could not be made up, whatever becomes of its socket.
pub proof fn law_unmade_requests_are_not_sent(
    run: ZmqRun,
    pool: ZmqPool,
    event: ZmqEvent,
    after: ZmqRun,
    pool_after: ZmqPool,
    r: ZmqAction,
)
    requires
        run.expects(event),
        run.frames matches Some(Err(_)),
        event is Begun || event is SocketMade,
        run.leads(pool, event, after, pool_after, r),
    ensures
        !(r is Send),
        r is MakeSocket || (r matches ZmqAction::End(outcome) && outcome is Err),
{
}

/// A listener that is about to start.
pub struct ListenPlan {
    pub handle: ModelListenerHandle,
    /// Whether the receiver's socket has still to be made.
    pub needs_socket: bool,
}

/// What has to hold before an operation may go on, and what is reported where it does not.
pub open spec fn refusal(operation: ZmqOperation, entry: IdEntry, address: Seq<char>, e: TransportError) -> bool {
    match entry_fault(entry) {
        Some(fault) => e matches TransportError::InvalidState(m) && m@ == fault,
        None => address.len() == 0 && operation.is_error(e, operation.spec_empty_address()),
    }
}

/// The requests of a client to a training server.
pub struct ZmqTrainingOps {
    pub transport_entry: IdEntry,
    pub pool: ZmqPool,
}

impl ZmqTrainingOps {
    pub fn new(transport_entry: IdEntry, pool: ZmqPool) -> (r: Self)
        ensures
            r.transport_entry == transport_entry,
            r.pool == pool,
    {
        ZmqTrainingOps { transport_entry, pool }
    }

    /// What preparing a request does: it is refused for a bad entry or an empty address; then the
    /// address is taken over; then the frames are made, unless what the request adds could not be.
    pub open spec fn prepared(
        before: Self,
        after: Self,
        operation: ZmqOperation,
        entry: IdEntry,
        address: Seq<char>,
        rest: Result<Seq<Seq<u8>>, Seq<char>>,
        r: Result<ZmqRequest, TransportError>,
    ) -> bool {
        &&& after.transport_entry == before.transport_entry
        &&& if entry_fault(entry) is Some || address.len() == 0 {
            &&& r matches Err(e)
            &&& refusal(operation, entry, address, e)
            &&& after.pool == before.pool
        } else {
            exists|updated: Result<bool, ZmqPoolError>|
                {
                    &&& #[trigger] before.pool.updates(
                        entry.id,
                        address,
                        operation.spec_address_type(),
                        after.pool,
                        updated,
                    )
                    &&& match updated {
                        Err(e) => r == Err::<ZmqRequest, TransportError>(TransportError::ZmqPool(e)),
                        Ok(needs_socket) => {
                            &&& r matches Ok(request)
                            &&& request.operation == operation
                            &&& request.identity == entry.id
                            &&& request.needs_socket == needs_socket
                            &&& match rest {
                                Ok(added) => request.frames matches Ok(frames) && frame_views(
                                    frames@,
                                ) == request_frames(before.transport_entry, entry, added),
                                Err(why) => request.frames matches Err(e) && operation.is_error(
                                    e,
                                    why,
                                ),
                            }
                        },
                    }
                }
        }
    }

    fn prepare(
        &mut self,
        operation: ZmqOperation,
        entry: &IdEntry,
        address: &str,
        rest: Result<Vec<Vec<u8>>, String>,
    ) -> (r: Result<ZmqRequest, TransportError>)
        ensures
            Self::prepared(
                *old(self),
                *final(self),
                operation,
                *entry,
                address@,
                added_frames(rest),
                r,
            ),
    {
        if let Err(e) = validate_entry(entry) {
            return Err(e);
        }
        if address.is_empty() {
            return Err(operation.error(operation.empty_address()));
        }
        let updated = self.pool.update_cache(entry.id, address, operation.address_type());
        proof {
            assert(old(self).pool.updates(
                entry.id,
                address@,
                operation.spec_address_type(),
                self.pool,
                updated,
            ));
        }
        let needs_socket = match updated {
            Ok(needs) => needs,
            Err(e) => {
                return Err(TransportError::ZmqPool(e));
            },
        };
        let frames = match rest {
            Ok(added) => Ok(make_frames(&self.transport_entry, entry, added)),
            Err(why) => Err(operation.error(why)),
        };
        Ok(ZmqRequest { operation, identity: entry.id, needs_socket, frames })
    }

    /// Prepares the announcement that an algorithm is to be set up for actors: their entries, a
    /// word for the request, and the algorithm's name. The hyperparameters are not sent, but nothing
    /// is where they cannot be written.
    pub fn execute_send_algorithm_init_request(
        &mut self,
        scaling_entry: &IdEntry,
        actor_entries: &Vec<IdEntry>,
        algorithm: &Algorithm,
        hyperparams: Result<(), String>,
        agent_listener_address: &str,
    ) -> (r: Result<ZmqRequest, TransportError>)
        ensures
            Self::prepared(
                *old(self),
                *final(self),
                ZmqOperation::AlgorithmInit,
                *scaling_entry,
                agent_listener_address@,
                match hyperparams {
                    Ok(_) => Ok(
                        seq![
                            bytes_of(
                                joined(
                                    colon_entries(scaling_entry.namespace@, actor_entries@),
                                    ","@,
                                ),
                            ),
                            bytes_of("ALGORITHM_INIT"@),
                            bytes_of(algorithm_name(algorithm@)),
                        ],
                    ),
                    Err(why) => Err("Failed to serialize hyperparams: "@ + why@),
                },
                r,
            ),
    {
        if let Err(why) = hyperparams {
            let mut m = "Failed to serialize hyperparams: ".to_owned();
            m.append(why.as_str());
            return self.prepare(
                ZmqOperation::AlgorithmInit,
                scaling_entry,
                agent_listener_address,
                Err(m),
            );
        }
        let actors = colon_list(scaling_entry.namespace.as_str(), actor_entries);
        let mut rest: Vec<Vec<u8>> = Vec::new();
        rest.push(actors.as_str().as_bytes_vec());
        rest.push("ALGORITHM_INIT".as_bytes_vec());
        rest.push(algorithm.as_str().as_bytes_vec());
        proof {
            assert(frame_views(rest@) =~= seq![
                bytes_of(joined(colon_entries(scaling_entry.namespace@, actor_entries@), ","@)),
                bytes_of("ALGORITHM_INIT"@),
                bytes_of(algorithm_name(algorithm@)),
            ]);
        }
        self.prepare(ZmqOperation::AlgorithmInit, scaling_entry, agent_listener_address, Ok(rest))
    }

    /// Prepares the request for an actor's first model.
    pub fn execute_initial_model_handshake(
        &mut self,
        actor_entry: &IdEntry,
        agent_listener_address: &str,
    ) -> (r: Result<ZmqRequest, TransportError>)
        ensures
            Self::prepared(
                *old(self),
                *final(self),
                ZmqOperation::ModelHandshake,
                *actor_entry,
                agent_listener_address@,
                Ok(seq![bytes_of("GET_MODEL"@)]),
                r,
            ),
    {
        let rest = one_word("GET_MODEL");
        self.prepare(ZmqOperation::ModelHandshake, actor_entry, agent_listener_address, Ok(rest))
    }

    /// Prepares the delivery of a trajectory, from what came of serializing it.
    pub fn execute_send_trajectory(
        &mut self,
        buffer_entry: &IdEntry,
        serialized_trajectory: Result<Vec<u8>, String>,
        trajectory_server_address: &str,
    ) -> (r: Result<ZmqRequest, TransportError>)
        ensures
            Self::prepared(
                *old(self),
                *final(self),
                ZmqOperation::Trajectory,
                *buffer_entry,
                trajectory_server_address@,
                match serialized_trajectory {
                    Ok(bytes) => Ok(seq![bytes@]),
                    Err(why) => Err("Failed to serialize trajectory: "@ + why@),
                },
                r,
            ),
    {
        let rest = match serialized_trajectory {
            Ok(bytes) => {
                let ghost content = bytes@;
                let mut frames: Vec<Vec<u8>> = Vec::new();
                frames.push(bytes);
                proof {
                    assert(frame_views(frames@) =~= seq![content]);
                }
                Ok(frames)
            },
            Err(why) => {
                let mut m = "Failed to serialize trajectory: ".to_owned();
                m.append(why.as_str());
                Err(m)
            },
        };
        self.prepare(ZmqOperation::Trajectory, buffer_entry, trajectory_server_address, rest)
    }

    /// Prepares the announcement of a client's identifiers.
    pub fn execute_send_client_ids(
        &mut self,
        scaling_entry: &IdEntry,
        client_ids: &Vec<IdEntry>,
        training_scaling_server_address: &str,
    ) -> (r: Result<ZmqRequest, TransportError>)
        ensures
            Self::prepared(
                *old(self),
                *final(self),
                ZmqOperation::ClientIds,
                *scaling_entry,
                training_scaling_server_address@,
                Ok(seq![bytes_of(joined(spaced_entries(client_ids@), " "@))]),
                r,
            ),
    {
        let ids = spaced_list(client_ids);
        let rest = one_word(ids.as_str());
        self.prepare(
            ZmqOperation::ClientIds,
            scaling_entry,
            training_scaling_server_address,
            Ok(rest),
        )
    }

    /// Prepares the announcement that routers are about to be scaled.
    pub fn execute_send_scaling_warning(
        &mut self,
        scaling_entry: &IdEntry,
        training_scaling_server_address: &str,
    ) -> (r: Result<ZmqRequest, TransportError>)
        ensures
            Self::prepared(
                *old(self),
                *final(self),
                ZmqOperation::ScalingWarning,
                *scaling_entry,
                training_scaling_server_address@,
                Ok(seq![bytes_of("ROUTER_SCALE_WARNING"@)]),
                r,
            ),
    {
        let rest = one_word("ROUTER_SCALE_WARNING");
        self.prepare(
            ZmqOperation::ScalingWarning,
            scaling_entry,
            training_scaling_server_address,
            Ok(rest),
        )
    }

    /// Prepares the announcement that routers have been scaled.
    pub fn execute_send_scaling_complete(
        &mut self,
        scaling_entry: &IdEntry,
        training_scaling_server_address: &str,
    ) -> (r: Result<ZmqRequest, TransportError>)
        ensures
            Self::prepared(
                *old(self),
                *final(self),
                ZmqOperation::ScalingComplete,
                *scaling_entry,
                training_scaling_server_address@,
                Ok(seq![bytes_of("ROUTER_SCALE_COMPLETE"@)]),
                r,
            ),
    {
        let rest = one_word("ROUTER_SCALE_COMPLETE");
        self.prepare(
            ZmqOperation::ScalingComplete,
            scaling_entry,
            training_scaling_server_address,
            Ok(rest),
        )
    }

    /// Prepares the announcement that the client shuts down.
    pub fn execute_send_shutdown_signal(
        &mut self,
        scaling_entry: &IdEntry,
        training_scaling_server_address: &str,
    ) -> (r: Result<ZmqRequest, TransportError>)
        ensures
            Self::prepared(
                *old(self),
                *final(self),
                ZmqOperation::ShutdownSignal,
                *scaling_entry,
                training_scaling_server_address@,
                Ok(seq![bytes_of("CLIENT_SHUTDOWN"@)]),
                r,
            ),
    {
        let rest = one_word("CLIENT_SHUTDOWN");
        self.prepare(
            ZmqOperation::ShutdownSignal,
            scaling_entry,
            training_scaling_server_address,
            Ok(rest),
        )
    }

    /// What starting to listen for models leads to: it is refused like a request, or without anybody
    /// to hand models to; while the transport shuts down nothing happens; otherwise the listener is
    /// registered and the address taken over.
    pub open spec fn listens(
        self,
        after: Self,
        receiver_entry: IdEntry,
        address: Seq<char>,
        receiver_closed: bool,
        r: Result<Option<ListenPlan>, TransportError>,
    ) -> bool {
        let operation = ZmqOperation::ListenForModel;
        if entry_fault(receiver_entry) is Some || address.len() == 0 {
            after == self && (r matches Err(e) && refusal(operation, receiver_entry, address, e))
        } else if receiver_closed {
            after == self && (r matches Err(e) && operation.is_error(
                e,
                "Model update transmitter is closed"@,
            ))
        } else if self.pool.transport_shutting_down {
            after == self && r == Ok::<Option<ListenPlan>, TransportError>(None)
        } else {
            &&& after.transport_entry == self.transport_entry
            &&& exists|handle: ModelListenerHandle, updated: Result<bool, ZmqPoolError>|
                {
                    &&& #[trigger] self.pool.listeners.registers(
                        after.pool.listeners,
                        receiver_entry.id,
                        handle,
                    )
                    &&& #[trigger] (ZmqPool {
                        listeners: after.pool.listeners,
                        ..self.pool
                    }).updates(
                        receiver_entry.id,
                        address,
                        operation.spec_address_type(),
                        after.pool,
                        updated,
                    )
                    &&& match updated {
                        Err(e) => r == Err::<Option<ListenPlan>, TransportError>(
                            TransportError::ZmqPool(e),
                        ),
                        Ok(needs_socket) => r == Ok::<Option<ListenPlan>, TransportError>(
                            Some(ListenPlan { handle, needs_socket }),
                        ),
                    }
                }
        }
    }

    /// Starts to listen for models, unless the transport shuts down.
    pub fn execute_listen_for_model(
        &mut self,
        receiver_entry: &IdEntry,
        model_server_address: &str,
        receiver_closed: bool,
    ) -> (r: Result<Option<ListenPlan>, TransportError>)
        requires
            old(self).pool.wf(),
        ensures
            final(self).pool.wf(),
            old(self).listens(
                *final(self),
                *receiver_entry,
                model_server_address@,
                receiver_closed,
                r,
            ),
    {
        let shutting_down = self.pool.is_shutting_down();
        match begin_listening(receiver_entry, model_server_address, receiver_closed, shutting_down) {
            Err(e) => {
                return Err(e);
            },
            Ok(starts) => {
                if !starts {
                    return Ok(None);
                }
            },
        }
        let handle = self.pool.listeners.register_model_listener(receiver_entry.id);
        let ghost registered = self.pool;
        let updated = self.pool.update_cache(
            receiver_entry.id,
            model_server_address,
            ZmqOperation::ListenForModel.address_type(),
        );
        proof {
            assert(registered == (ZmqPool { listeners: self.pool.listeners, ..old(self).pool }));
            assert((ZmqPool { listeners: self.pool.listeners, ..old(self).pool }).updates(
                receiver_entry.id,
                model_server_address@,
                ZmqOperation::ListenForModel.spec_address_type(),
                self.pool,
                updated,
            ));
            assert(old(self).pool.listeners.registers(
                self.pool.listeners,
                receiver_entry.id,
                handle,
            ));
        }
        match updated {
            Err(e) => Err(TransportError::ZmqPool(e)),
            Ok(needs_socket) => Ok(Some(ListenPlan { handle, needs_socket })),
        }
    }

    /// Stops the listener of a receiver.
    pub fn stop_model_listener(&mut self, receiver_entry: &IdEntry) -> (r: Result<(), TransportError>)
        requires
            old(self).pool.wf(),
        ensures
            final(self).pool.wf(),
            match entry_fault(*receiver_entry) {
                Some(fault) => *final(self) == *old(self) && (r matches Err(
                    TransportError::InvalidState(m),
                ) && m@ == fault),
                None => {
                    &&& r is Ok
                    &&& *final(self) == (ZmqTrainingOps {
                        pool: ZmqPool { listeners: final(self).pool.listeners, ..old(self).pool },
                        ..*old(self)
                    })
                    &&& tokens(final(self).pool.listeners.flags) == tokens(
                        old(self).pool.listeners.flags,
                    )
                    &&& final(self).pool.listeners.stopping@ == (if old(
                        self,
                    ).pool.listeners.registered(receiver_entry.id) {
                        old(self).pool.listeners.stopping@.update(
                            tokens(old(self).pool.listeners.flags)[receiver_entry.id] as int,
                            true,
                        )
                    } else {
                        old(self).pool.listeners.stopping@
                    })
                },
            },
    {
        if let Err(e) = validate_entry(receiver_entry) {
            return Err(e);
        }
        self.pool.listeners.stop_model_listener(receiver_entry.id);
        Ok(())
    }

    pub fn is_shutting_down(&self) -> (r: bool)
        ensures
            r == self.pool.transport_shutting_down,
    {
        self.pool.is_shutting_down()
    }

    /// Whether these are the entries that are taken from the registry when the transport shuts
    /// down: one for each socket but those for inference, pool by pool, and then its own.
    pub open spec fn lists_removals(self, list: Seq<RegistryRemoval>) -> bool {
        &&& list.len() > 0
        &&& covers(self.pool.cached_sockets, list.drop_last(), 4)
        &&& list.last().pool is None
        &&& list.last().entry.namespace@ == self.transport_entry.namespace@
        &&& list.last().entry.context@ == self.transport_entry.context@
        &&& list.last().entry.id == self.transport_entry.id
    }

    /// The entries that are taken from the registry when the transport shuts down.
    pub fn registry_removals(&self) -> (r: Vec<RegistryRemoval>)
        ensures
            self.lists_removals(r@),
    {
        let sockets = &self.pool.cached_sockets;
        let mut list: Vec<RegistryRemoval> = Vec::new();
        let mut dealers = sockets.removals(SocketPoolType::ModelDealer);
        let ghost first = dealers@;
        list.append(&mut dealers);
        let mut subs = sockets.removals(SocketPoolType::ModelSub);
        let ghost second = subs@;
        list.append(&mut subs);
        let mut pushes = sockets.removals(SocketPoolType::TrajPush);
        let ghost third = pushes@;
        list.append(&mut pushes);
        let mut scalers = sockets.removals(SocketPoolType::ScalingDealer);
        let ghost fourth = scalers@;
        list.append(&mut scalers);
        let ghost all = list@;
        list.push(
            RegistryRemoval {
                pool: None,
                entry: IdEntry {
                    namespace: self.transport_entry.namespace.clone(),
                    context: self.transport_entry.context.clone(),
                    id: self.transport_entry.id,
                },
            },
        );
        proof {
            let none = Seq::<RegistryRemoval>::empty();
            assert(none + first =~= first);
            lemma_covers_more(*sockets, none, 0, first, SocketPoolType::ModelDealer);
            lemma_covers_more(*sockets, none + first, 1, second, SocketPoolType::ModelSub);
            lemma_covers_more(*sockets, none + first + second, 2, third, SocketPoolType::TrajPush);
            lemma_covers_more(
                *sockets,
                none + first + second + third,
                3,
                fourth,
                SocketPoolType::ScalingDealer,
            );
            assert(all =~= none + first + second + third + fourth);
            assert(list@.drop_last() =~= all);
        }
        list
    }

    /// What comes of shutting down when so many of the entries have been taken from the registry.
    pub open spec fn walks(
        self,
        list: Seq<RegistryRemoval>,
        done: int,
        after: Self,
        r: Result<(), TransportError>,
    ) -> bool {
        &&& self.lists_removals(list)
        &&& walked(self.pool.cached_sockets, after.pool.cached_sockets, list, done, r)
    }

    /// Shuts the transport down: listeners are stopped, then the identifiers of all sockets but
    /// those for inference are taken from the registry, then the transport's own. The first refusal
    /// of the registry ends it; the sockets before it are forgotten. Whether there is a refusal
    /// depends on the registry.
    pub fn shutdown(&mut self) -> (r: Result<(), TransportError>)
        requires
            old(self).pool.wf(),
        ensures
            final(self).pool.wf(),
            *final(self) == (ZmqTrainingOps {
                pool: ZmqPool {
                    transport_shutting_down: true,
                    listeners: final(self).pool.listeners,
                    cached_sockets: final(self).pool.cached_sockets,
                    ..old(self).pool
                },
                ..*old(self)
            }),
            old(self).pool.listeners.stops_all(final(self).pool.listeners),
            exists|list: Seq<RegistryRemoval>, done: int| #[trigger]
                old(self).walks(list, done, *final(self), r),
            r matches Err(e) ==> (e matches TransportError::UuidPoolError(why) && (refuses_removal(
                SOCKET_NAMESPACE@,
                pool_error_chars(why),
            ) || refuses_removal(old(self).transport_entry.namespace@, pool_error_chars(why)))),
    {
        self.pool.begin_shutdown();
        let list = self.registry_removals();
        let (done, refusal) = remove_all(&list);
        let ghost refused = refusal;
        let r = self.pool.cached_sockets.removed(&list, done, refusal);
        proof {
            assert(old(self).walks(list@, done as int, *self, r));
            if refused is Some && done < list@.len() - 1 {
                let rest = list@.drop_last();
                assert(rest[done as int] == list@[done as int]);
            }
        }
        r
    }
}

/// Forgets the sockets for inference and takes their identifiers from the registry. The first
/// refusal of the registry ends it. Without such sockets nothing is asked of the registry.
pub fn shutdown_inference(pool: &mut ZmqPool) -> (r: Result<(), TransportError>)
    ensures
        *final(pool) == (ZmqPool { cached_sockets: final(pool).cached_sockets, ..*old(pool) }),
        exists|list: Seq<RegistryRemoval>, done: int|
            {
                &&& lists_sockets(
                    old(pool).cached_sockets,
                    SocketPoolType::InferenceDealer,
                    list,
                )
                &&& #[trigger] walked(
                    old(pool).cached_sockets,
                    final(pool).cached_sockets,
                    list,
                    done,
                    r,
                )
            },
        old(pool).cached_sockets.of(SocketPoolType::InferenceDealer) is None ==> r is Ok,
        old(pool).cached_sockets.of(SocketPoolType::InferenceDealer) matches Some(m)
            ==> m.dom().is_empty() ==> r is Ok,
        r matches Err(e) ==> (e matches TransportError::UuidPoolError(why) && refuses_removal(
            SOCKET_NAMESPACE@,
            pool_error_chars(why),
        )),
{
    let list = pool.cached_sockets.removals(SocketPoolType::InferenceDealer);
    let (done, refusal) = remove_all(&list);
    let r = pool.cached_sockets.removed(&list, done, refusal);
    proof {
        assert(lists_sockets(old(pool).cached_sockets, SocketPoolType::InferenceDealer, list@));
        assert(walked(old(pool).cached_sockets, pool.cached_sockets, list@, done as int, r));
        if list@.len() > 0 {
            let m = old(pool).cached_sockets.of(SocketPoolType::InferenceDealer)->0;
            assert(m.dom().contains(list@[0].entry.id));
        }
    }
    r
}

/// An entry that is taken from the registry, and the pool whose socket it stands for, if it does.
pub struct RegistryRemoval {
    pub pool: Option<SocketPoolType>,
    pub entry: IdEntry,
}

/// Whether an entry stands for a socket of a pool.
pub open spec fn stands_for(removal: RegistryRemoval, t: SocketPoolType) -> bool {
    &&& removal.pool == Some(t)
    &&& removal.entry.namespace@ == SOCKET_NAMESPACE@
    &&& removal.entry.context@ == t.spec_kind().spec_context()
}

/// Whether these are the entries of the sockets of a pool, one for each, in any order.
pub open spec fn lists_sockets(
    sockets: ZmqSocketPool,
    t: SocketPoolType,
    list: Seq<RegistryRemoval>,
) -> bool {
    &&& forall|i: int|
        0 <= i < list.len() ==> stands_for(#[trigger] list[i], t) && sockets.has(t, list[i].entry.id)
    &&& forall|i: int, j: int|
        0 <= i < j < list.len() ==> (#[trigger] list[i]).entry.id != (#[trigger] list[j]).entry.id
    &&& forall|id: u128| #[trigger]
        sockets.has(t, id) ==> exists|i: int|
            0 <= i < list.len() && (#[trigger] list[i]).entry.id == id
}

/// The place of a pool in the order in which the training pools are shut down; that for inference
/// is not among them.
pub open spec fn rank(t: SocketPoolType) -> int {
    match t {
        SocketPoolType::ModelDealer => 0,
        SocketPoolType::ModelSub => 1,
        SocketPoolType::TrajPush => 2,
        SocketPoolType::ScalingDealer => 3,
        SocketPoolType::InferenceDealer => 4,
    }
}

/// Whether these are the entries of the sockets of the first pools, one for each socket, pool by
/// pool.
pub open spec fn covers(sockets: ZmqSocketPool, list: Seq<RegistryRemoval>, upto: int) -> bool {
    &&& forall|i: int|
        0 <= i < list.len() ==> {
            &&& (#[trigger] list[i]).pool matches Some(t)
            &&& rank(t) < upto
            &&& stands_for(list[i], t)
            &&& sockets.has(t, list[i].entry.id)
        }
    &&& forall|i: int, j: int|
        0 <= i < j < list.len() ==> {
            ||| rank((#[trigger] list[i]).pool->0) < rank((#[trigger] list[j]).pool->0)
            ||| list[i].pool == list[j].pool && list[i].entry.id != list[j].entry.id
        }
    &&& forall|t: SocketPoolType, id: u128| #[trigger]
        sockets.has(t, id) && rank(t) < upto ==> exists|i: int|
            0 <= i < list.len() && (#[trigger] list[i]).pool == Some(t) && list[i].entry.id == id
}

proof fn lemma_covers_more(
    sockets: ZmqSocketPool,
    list: Seq<RegistryRemoval>,
    upto: int,
    more: Seq<RegistryRemoval>,
    t: SocketPoolType,
)
    requires
        0 < upto ==> covers(sockets, list, upto),
        upto == 0 ==> list.len() == 0,
        rank(t) == upto,
        0 <= upto < 4,
        lists_sockets(sockets, t, more),
    ensures
        covers(sockets, list + more, upto + 1),
{
    let all = list + more;
    assert forall|i: int| 0 <= i < all.len() implies {
        &&& (#[trigger] all[i]).pool matches Some(p)
        &&& rank(p) < upto + 1
        &&& stands_for(all[i], p)
        &&& sockets.has(p, all[i].entry.id)
    } by {
        if i < list.len() {
            assert(all[i] == list[i]);
        } else {
            assert(all[i] == more[i - list.len()]);
        }
    }
    assert forall|i: int, j: int| 0 <= i < j < all.len() implies {
        ||| rank((#[trigger] all[i]).pool->0) < rank((#[trigger] all[j]).pool->0)
        ||| all[i].pool == all[j].pool && all[i].entry.id != all[j].entry.id
    } by {
        if j < list.len() {
            assert(all[i] == list[i] && all[j] == list[j]);
        } else if i < list.len() {
            assert(all[i] == list[i] && all[j] == more[j - list.len()]);
        } else {
            assert(all[i] == more[i - list.len()] && all[j] == more[j - list.len()]);
        }
    }
    assert forall|p: SocketPoolType, id: u128| #[trigger]
        sockets.has(p, id) && rank(p) < upto + 1 implies exists|i: int|
        0 <= i < all.len() && (#[trigger] all[i]).pool == Some(p) && all[i].entry.id == id by {
        if rank(p) < upto {
            let i = choose|i: int|
                0 <= i < list.len() && (#[trigger] list[i]).pool == Some(p) && list[i].entry.id == id;
            assert(all[i] == list[i]);
        } else {
            assert(p == t);
            let i = choose|i: int| 0 <= i < more.len() && (#[trigger] more[i]).entry.id == id;
            assert(all[list.len() + i] == more[i]);
        }
    }
}

/// Whether the socket of a pool with this identifier is among the first entries.
pub open spec fn is_among(list: Seq<RegistryRemoval>, done: int, t: SocketPoolType, id: u128) -> bool {
    exists|i: int|
        0 <= i < done && (#[trigger] list[i]).pool == Some(t) && list[i].entry.id == id
}

/// Whether the sockets of the first entries are forgotten, and no others.
pub open spec fn forgets(
    before: ZmqSocketPool,
    after: ZmqSocketPool,
    list: Seq<RegistryRemoval>,
    done: int,
) -> bool {
    forall|t: SocketPoolType|
        match before.of(t) {
            None => #[trigger] after.of(t) is None,
            Some(b) => after.of(t) matches Some(a) && a == b.remove_keys(
                Set::new(|id: u128| is_among(list, done, t, id)),
            ),
        }
}

/// What is reported of taking entries from the registry when so many have been, and what becomes of
/// the sockets.
pub open spec fn walked(
    before: ZmqSocketPool,
    after: ZmqSocketPool,
    list: Seq<RegistryRemoval>,
    done: int,
    r: Result<(), TransportError>,
) -> bool {
    &&& 0 <= done <= list.len()
    &&& forgets(before, after, list, done)
    &&& match r {
        Ok(_) => done == list.len(),
        Err(e) => {
            &&& done < list.len()
            &&& e matches TransportError::UuidPoolError(why)
            &&& refuses_removal(list[done].entry.namespace@, pool_error_chars(why))
        },
    }
}

impl ZmqSocketPool {
    /// Whether there is a socket of a pool with this identifier.
    pub open spec fn has(self, t: SocketPoolType, id: u128) -> bool {
        self.of(t) matches Some(m) && m.contains_key(id)
    }

    /// The entries that the sockets of a pool are registered with.
    pub fn removals(&self, t: SocketPoolType) -> (r: Vec<RegistryRemoval>)
        ensures
            lists_sockets(*self, t, r@),
    {
        let mut list: Vec<RegistryRemoval> = Vec::new();
        if let Some(sockets) = self.get(t) {
            let ids = tokens_keys(sockets);
            let kind = t.kind();
            let mut i: usize = 0;
            while i < ids.len()
                invariant
                    i <= ids@.len(),
                    kind == t.spec_kind(),
                    ids@.no_duplicates(),
                    self.of(t) == Some(tokens(*sockets)),
                    forall|k: u128| #[trigger] ids@.contains(k) <==> tokens(*sockets).contains_key(k),
                    list@.len() == i,
                    forall|k: int|
                        0 <= k < i ==> stands_for(#[trigger] list@[k], t) && list@[k].entry.id
                            == ids@[k],
                decreases ids@.len() - i,
            {
                list.push(
                    RegistryRemoval {
                        pool: Some(t),
                        entry: IdEntry {
                            namespace: SOCKET_NAMESPACE.to_owned(),
                            context: kind.context(),
                            id: ids[i],
                        },
                    },
                );
                i = i + 1;
            }
            proof {
                assert forall|k: int| 0 <= k < list@.len() implies self.has(
                    t,
                    (#[trigger] list@[k]).entry.id,
                ) by {
                    assert(ids@.contains(ids@[k]));
                }
                assert forall|id: u128| #[trigger] self.has(t, id) implies exists|k: int|
                    0 <= k < list@.len() && (#[trigger] list@[k]).entry.id == id by {
                    assert(ids@.contains(id));
                    let k = choose|k: int| 0 <= k < ids@.len() && ids@[k] == id;
                    assert(list@[k].entry.id == id);
                }
            }
        }
        list
    }

    fn forget(&mut self, t: SocketPoolType, id: u128)
        ensures
            forall|p: SocketPoolType|
                p != t ==> #[trigger] final(self).of(p) == old(self).of(p),
            match old(self).of(t) {
                None => final(self).of(t) is None,
                Some(m) => final(self).of(t) == Some(m.remove(id)),
            },
    {
        let pool = match t {
            SocketPoolType::InferenceDealer => &mut self.inference_dealer_socket,
            SocketPoolType::ModelDealer => &mut self.model_dealer_socket,
            SocketPoolType::ModelSub => &mut self.model_sub_socket,
            SocketPoolType::TrajPush => &mut self.traj_push_socket,
            SocketPoolType::ScalingDealer => &mut self.scaling_dealer_socket,
        };
        if let Some(m) = pool {
            tokens_remove(m, id);
        }
    }

    /// Forgets the sockets whose entries have been taken from the registry, and reports what ended
    /// that, if anything did.
    pub fn removed(
        &mut self,
        list: &Vec<RegistryRemoval>,
        done: usize,
        refusal: Option<UuidPoolError>,
    ) -> (r: Result<(), TransportError>)
        requires
            done <= list@.len(),
        ensures
            forgets(*old(self), *final(self), list@, done as int),
            match refusal {
                None => r is Ok,
                Some(e) => r == Err::<(), TransportError>(TransportError::UuidPoolError(e)),
            },
    {
        let mut i: usize = 0;
        proof {
            assert forall|t: SocketPoolType| #[trigger] self.of(t) is Some implies self.of(t)->0
                =~= self.of(t)->0.remove_keys(Set::new(|id: u128| is_among(list@, 0, t, id))) by {}
        }
        while i < done
            invariant
                i <= done <= list@.len(),
                forgets(*old(self), *self, list@, i as int),
            decreases done - i,
        {
            let ghost before = *self;
            if let Some(t) = list[i].pool {
                self.forget(t, list[i].entry.id);
            }
            proof {
                assert forall|t: SocketPoolType| match old(self).of(t) {
                    None => #[trigger] self.of(t) is None,
                    Some(b) => self.of(t) matches Some(a) && a == b.remove_keys(
                        Set::new(|id: u128| is_among(list@, i as int + 1, t, id)),
                    ),
                } by {
                    assert(before.of(t) is Some == old(self).of(t) is Some);
                    if let Some(b) = old(self).of(t) {
                        assert forall|id: u128| is_among(list@, i as int + 1, t, id) == (is_among(
                            list@,
                            i as int,
                            t,
                            id,
                        ) || (list@[i as int].pool == Some(t) && list@[i as int].entry.id == id)) by {}
                        assert(self.of(t)->0 =~= b.remove_keys(
                            Set::new(|id: u128| is_among(list@, i as int + 1, t, id)),
                        ));
                    }
                }
            }
            i = i + 1;
        }
        match refusal {
            None => Ok(()),
            Some(e) => Err(TransportError::UuidPoolError(e)),
        }
    }
}

/// A shutdown that succeeds leaves no socket in any pool but that for inference, which it leaves
/// alone.
pub proof fn law_shutdown_forgets_all(
    before: ZmqTrainingOps,
    list: Seq<RegistryRemoval>,
    done: int,
    after: ZmqTrainingOps,
    t: SocketPoolType,
    id: u128,
)
    requires
        before.walks(list, done, after, Ok(())),
    ensures
        t != SocketPoolType::InferenceDealer ==> !after.pool.cached_sockets.has(t, id),
        after.pool.cached_sockets.of(SocketPoolType::InferenceDealer)
            == before.pool.cached_sockets.of(SocketPoolType::InferenceDealer),
{
    let rest = list.drop_last();
    let sockets = before.pool.cached_sockets;
    if t != SocketPoolType::InferenceDealer && sockets.has(t, id) {
        let i = choose|i: int|
            0 <= i < rest.len() && (#[trigger] rest[i]).pool == Some(t) && rest[i].entry.id == id;
        assert(list[i] == rest[i]);
        assert(is_among(list, done, t, id));
    }
    assert forall|other: u128| !is_among(list, done, SocketPoolType::InferenceDealer, other) by {
        if is_among(list, done, SocketPoolType::InferenceDealer, other) {
            let i = choose|i: int|
                0 <= i < done && (#[trigger] list[i]).pool == Some(SocketPoolType::InferenceDealer)
                    && list[i].entry.id == other;
            assert(i < rest.len());
            assert(rest[i] == list[i]);
        }
    }
    if let Some(b) = sockets.of(SocketPoolType::InferenceDealer) {
        let gone = Set::new(
            |other: u128| is_among(list, done, SocketPoolType::InferenceDealer, other),
        );
        assert(b.remove_keys(gone) =~= b);
    }
}

/// Takes entries from the registry, one after the other, until it refuses. Tells how many were
/// taken.
fn remove_all(list: &Vec<RegistryRemoval>) -> (r: (usize, Option<UuidPoolError>))
    ensures
        match r.1 {
            None => r.0 == list@.len(),
            Some(e) => r.0 < list@.len() && refuses_removal(
                list@[r.0 as int].entry.namespace@,
                pool_error_chars(e),
            ),
        },
{
    let mut i: usize = 0;
    while i < list.len()
        invariant
            i <= list@.len(),
        decreases list@.len() - i,
    {
        if let Err(e) = remove_entry(&list[i].entry) {
            return (i, Some(e));
        }
        i = i + 1;
    }
    (i, None)
}

fn one_word(word: &str) -> (r: Vec<Vec<u8>>)
    ensures
        frame_views(r@) == seq![bytes_of(word@)],
{
    let mut rest: Vec<Vec<u8>> = Vec::new();
    rest.push(word.as_bytes_vec());
    proof {
        assert(frame_views(rest@) =~= seq![bytes_of(word@)]);
    }
    rest
}

/// The signed number that eight bytes write in big-endian order.
pub open spec fn signed_big_endian(bytes: Seq<u8>) -> int {
    let v = big_endian(bytes) as int;
    if v >= 0x8000_0000_0000_0000 {
        v - 0x1_0000_0000_0000_0000
    } else {
        v
    }
}

proof fn lemma_big_endian_bound(bytes: Seq<u8>)
    requires
        bytes.len() <= 8,
    ensures
        bytes.len() == 0 ==> big_endian(bytes) < 1,
        bytes.len() == 1 ==> big_endian(bytes) < 0x100,
        bytes.len() == 2 ==> big_endian(bytes) < 0x1_0000,
        bytes.len() == 3 ==> big_endian(bytes) < 0x100_0000,
        bytes.len() == 4 ==> big_endian(bytes) < 0x1_0000_0000,
        bytes.len() == 5 ==> big_endian(bytes) < 0x100_0000_0000,
        bytes.len() == 6 ==> big_endian(bytes) < 0x1_0000_0000_0000,
        bytes.len() == 7 ==> big_endian(bytes) < 0x100_0000_0000_0000,
        bytes.len() == 8 ==> big_endian(bytes) < 0x1_0000_0000_0000_0000,
    decreases bytes.len(),
{
    if bytes.len() > 0 {
        lemma_big_endian_bound(bytes.drop_last());
    }
}

fn read_version(bytes: &Vec<u8>) -> (r: i64)
    requires
        bytes@.len() == 8,
    ensures
        r == signed_big_endian(bytes@),
{
    let mut value: u128 = 0;
    let mut i: usize = 0;
    while i < 8
        invariant
            i <= 8,
            bytes@.len() == 8,
            value as nat == big_endian(bytes@.take(i as int)),
            value < 0x1_0000_0000_0000_0000,
        decreases 8 - i,
    {
        proof {
            let next = bytes@.take(i as int + 1);
            assert(next.drop_last() =~= bytes@.take(i as int));
            lemma_big_endian_bound(next);
        }
        value = value * 256 + bytes[i] as u128;
        i = i + 1;
    }
    proof {
        assert(bytes@.take(8) =~= bytes@);
    }
    if value >= 0x8000_0000_0000_0000 {
        (value as i128 - 0x1_0000_0000_0000_0000) as i64
    } else {
        value as i64
    }
}

/// What the frames of a model update mean: a topic, the model, the actor and the version. Fewer
/// frames are an error; an update without a model or with a bad actor is skipped; a bad version is
/// an error.
pub open spec fn update_means(parts: Seq<Seq<u8>>, r: Result<Option<RoutedMessage>, TransportError>) -> bool {
    if parts.len() < 4 {
        r matches Err(TransportError::ListenForModelError(m)) && m@
            == "Malformed model update response"@
    } else if parts[1].len() == 0 || parts[2].len() != 16 {
        r == Ok::<Option<RoutedMessage>, TransportError>(None)
    } else if parts[3].len() != 8 {
        r matches Err(TransportError::ListenForModelError(m)) && m@
            == "Malformed model update response: invalid version byte length: expected 8, got "@
            + decimal(parts[3].len())
    } else {
        &&& r matches Ok(Some(message))
        &&& message.is_model_update(
            big_endian(parts[2]) as u128,
            parts[1],
            signed_big_endian(parts[3]),
        )
    }
}

/// Reads the frames of a model update.
pub fn build_routed_model_update_message(message_parts: &Vec<Vec<u8>>) -> (r: Result<
    Option<RoutedMessage>,
    TransportError,
>)
    ensures
        update_means(frame_views(message_parts@), r),
{
    if message_parts.len() < 4 {
        return Err(
            TransportError::ListenForModelError("Malformed model update response".to_owned()),
        );
    }
    if message_parts[1].len() == 0 || message_parts[2].len() != 16 {
        return Ok(None);
    }
    let actor_id: u128 = uuid_from_bytes(&message_parts[2]);
    if message_parts[3].len() != 8 {
        let mut m =
            "Malformed model update response: invalid version byte length: expected 8, got ".to_owned();
        let got = decimal_text(message_parts[3].len() as u64);
        m.append(got.as_str());
        return Err(TransportError::ListenForModelError(m));
    }
    let version: i64 = read_version(&message_parts[3]);
    let model_bytes = message_parts[1].clone();
    proof {
        assert(model_bytes@ =~= message_parts@[1]@);
    }
    Ok(
        Some(
            RoutedMessage {
                actor_id,
                protocol: RoutingProtocol::ModelUpdate,
                payload: RoutedPayload::ModelUpdate { model_bytes, version },
            },
        ),
    )
}

/// What happens while a client listens for models.
pub enum ListenEvent {
    /// Before each attempt to receive: whether the listener is to stop.
    Turn { stopping: bool },
    Received(Vec<Vec<u8>>),
    /// Nothing came in time, and whether the listener is to stop.
    TimedOut { stopping: bool },
    ReceiveFailed(String),
    /// A message was handed on.
    Forwarded,
    /// A message could not be handed on, why, and whether the listener is to stop.
    ForwardFailed { why: String, stopping: bool },
}

/// What a client that listens for models does next.
pub enum ListenAction {
    Receive,
    Forward(RoutedMessage),
    NextTurn,
    /// The listener is unregistered and ends with this outcome.
    End(Result<(), TransportError>),
}

/// Whether listening may start: not with a bad entry, without an address or with nobody to hand
/// models to; and not, though that is no error, while the transport shuts down.
pub fn begin_listening(
    receiver_entry: &IdEntry,
    model_server_address: &str,
    receiver_closed: bool,
    shutting_down: bool,
) -> (r: Result<bool, TransportError>)
    ensures
        if entry_fault(*receiver_entry) is Some || model_server_address@.len() == 0 {
            r matches Err(e) && refusal(
                ZmqOperation::ListenForModel,
                *receiver_entry,
                model_server_address@,
                e,
            )
        } else if receiver_closed {
            r matches Err(TransportError::ListenForModelError(m)) && m@
                == "Model update transmitter is closed"@
        } else {
            r == Ok::<bool, TransportError>(!shutting_down)
        },
{
    if let Err(e) = validate_entry(receiver_entry) {
        return Err(e);
    }
    let operation = ZmqOperation::ListenForModel;
    if model_server_address.is_empty() {
        return Err(operation.error(operation.empty_address()));
    }
    if receiver_closed {
        return Err(operation.error("Model update transmitter is closed".to_owned()));
    }
    Ok(!shutting_down)
}

/// What follows an event while listening.
pub open spec fn listening(event: ListenEvent, r: ListenAction) -> bool {
    match event {
        ListenEvent::Turn { stopping } => if stopping {
            r == ListenAction::End(Ok(()))
        } else {
            r == ListenAction::Receive
        },
        ListenEvent::TimedOut { stopping } => if stopping {
            r == ListenAction::End(Ok(()))
        } else {
            r == ListenAction::NextTurn
        },
        ListenEvent::Forwarded => r == ListenAction::NextTurn,
        ListenEvent::Received(parts) => exists|read: Result<Option<RoutedMessage>, TransportError>|
            #[trigger] update_means(frame_views(parts@), read) && match read {
                Ok(Some(message)) => r == ListenAction::Forward(message),
                Ok(None) => r == ListenAction::NextTurn,
                Err(e) => r == ListenAction::End(Err(e)),
            },
        ListenEvent::ReceiveFailed(why) => r matches ListenAction::End(
            Err(TransportError::ListenForModelError(m)),
        ) && m@ == "SUB socket recv error: "@ + why@,
        ListenEvent::ForwardFailed { why, stopping } => if stopping {
            r == ListenAction::End(Ok(()))
        } else {
            r matches ListenAction::End(Err(TransportError::ListenForModelError(m))) && m@
                == "Failed to dispatch model update message to model update transmitter: "@ + why@
        },
    }
}

/// Decides what follows an event while listening.
pub fn listen_step(event: ListenEvent) -> (r: ListenAction)
    ensures
        listening(event, r),
{
    let operation = ZmqOperation::ListenForModel;
    match event {
        ListenEvent::Turn { stopping } => {
            if stopping {
                ListenAction::End(Ok(()))
            } else {
                ListenAction::Receive
            }
        },
        ListenEvent::TimedOut { stopping } => {
            if stopping {
                ListenAction::End(Ok(()))
            } else {
                ListenAction::NextTurn
            }
        },
        ListenEvent::Forwarded => ListenAction::NextTurn,
        ListenEvent::Received(parts) => {
            let read = build_routed_model_update_message(&parts);
            proof {
                assert(update_means(frame_views(parts@), read));
            }
            match read {
                Ok(Some(message)) => ListenAction::Forward(message),
                Ok(None) => ListenAction::NextTurn,
                Err(e) => ListenAction::End(Err(e)),
            }
        },
        ListenEvent::ReceiveFailed(why) => {
            let mut m = operation.receive_failed();
            m.append(why.as_str());
            ListenAction::End(Err(operation.error(m)))
        },
        ListenEvent::ForwardFailed { why, stopping } => {
            if stopping {
                return ListenAction::End(Ok(()));
            }
            let mut m =
                "Failed to dispatch model update message to model update transmitter: ".to_owned();
            m.append(why.as_str());
            ListenAction::End(Err(operation.error(m)))
        },
    }
}

/// An announcement of identifiers, of scaling or of shutdown ends well only after a reply was
/// received whose second part reads as nought.
pub proof fn law_announcements_end_well_only_when_acknowledged(
    run: ZmqRun,
    pool: ZmqPool,
    event: ZmqEvent,
    after: ZmqRun,
    pool_after: ZmqPool,
    outcome: Option<Vec<u8>>,
)
    requires
        run.operation == ZmqOperation::ClientIds || run.operation == ZmqOperation::ScalingWarning
            || run.operation == ZmqOperation::ScalingComplete || run.operation
            == ZmqOperation::ShutdownSignal,
        run.leads(pool, event, after, pool_after, ZmqAction::End(Ok(outcome))),
    ensures
        event matches ZmqEvent::Received(SocketUse::Done(parts)) && parts@.len() >= 2 && (parsed_i64(
            lossy_utf8(parts@[1]@),
        ) matches Ok(value) && value == 0),
        outcome is None,
{
}

/// A handshake ends well only after a reply was received that has a second part, and brings that
/// part.
pub proof fn law_handshakes_bring_the_second_part(
    run: ZmqRun,
    pool: ZmqPool,
    event: ZmqEvent,
    after: ZmqRun,
    pool_after: ZmqPool,
    outcome: Option<Vec<u8>>,
)
    requires
        run.operation == ZmqOperation::ModelHandshake,
        run.leads(pool, event, after, pool_after, ZmqAction::End(Ok(outcome))),
    ensures
        event matches ZmqEvent::Received(SocketUse::Done(parts)) && parts@.len() >= 2 && (outcome
            matches Some(model) && model@ == parts@[1]@),
{
}

/// Algorithms and trajectories are done once they are sent: no reply is awaited.
pub proof fn law_algorithms_and_trajectories_end_when_sent(
    run: ZmqRun,
    pool: ZmqPool,
    event: ZmqEvent,
    after: ZmqRun,
    pool_after: ZmqPool,
    r: ZmqAction,
)
    requires
        run.operation == ZmqOperation::AlgorithmInit || run.operation == ZmqOperation::Trajectory,
        event is Begun || event is SocketMade || event is Sent,
        run.leads(pool, event, after, pool_after, r),
    ensures
        r !is Receive,
        r == ZmqAction::End(Ok(None)) <==> event == ZmqEvent::Sent(SocketUse::Done(())),
        r matches ZmqAction::End(Ok(outcome)) ==> outcome is None,
{
    if let ZmqEvent::Sent(SocketUse::Done(u)) = event {
        assert(u == ());
    }
}

/// What is sent is what was prepared, once, through the socket that is kept for the request's
/// identity in the pool of its operation; the reply is awaited on the same socket.
pub proof fn law_requests_go_through_the_socket_of_their_identity(
    run: ZmqRun,
    pool: ZmqPool,
    event: ZmqEvent,
    after: ZmqRun,
    pool_after: ZmqPool,
    r: ZmqAction,
)
    requires
        run.expects(event),
        run.leads(pool, event, after, pool_after, r),
    ensures
        r matches ZmqAction::Send { socket, frames } ==> {
            &&& event is Begun && !run.needs_socket || event is SocketMade
            &&& pool_after.cached_sockets.of(run.operation.spec_socket_type()) matches Some(sockets)
            &&& sockets.contains_key(run.identity)
            &&& sockets[run.identity] == socket
            &&& run.frames matches Some(Ok(prepared))
            &&& frames == prepared
            &&& after.socket == socket
            &&& after.frames is None
        },
        event is Begun && run.needs_socket <==> r is MakeSocket,
        r matches ZmqAction::MakeSocket(t) ==> t == run.operation.spec_socket_type() && after.frames
            == run.frames,
        event matches ZmqEvent::SocketMade(Ok(made)) ==> (r matches ZmqAction::Send { socket, .. }
            ==> socket == made),
        r matches ZmqAction::Receive { socket } ==> socket == run.socket && event == ZmqEvent::Sent(
            SocketUse::Done(()),
        ),
        event !is SocketMade ==> pool_after == pool,
        pool_after.cached_addresses == pool.cached_addresses,
        pool_after.listeners == pool.listeners,
        after.operation == run.operation,
        after.identity == run.identity,
        r is End <==> after.stage == RequestStage::Over,
        r is Send <==> after.stage == RequestStage::Send,
        r is Receive <==> after.stage == RequestStage::Receive,
        r is MakeSocket <==> after.stage == RequestStage::Socket,
{
    if let ZmqEvent::Sent(SocketUse::Done(u)) = event {
        assert(u == ());
    }
}

/// A socket that is in use or that fails ends a request with an error of its operation that gives
/// the reason.
pub proof fn law_failures_end_requests(
    run: ZmqRun,
    pool: ZmqPool,
    event: ZmqEvent,
    after: ZmqRun,
    pool_after: ZmqPool,
    r: ZmqAction,
)
    requires
        run.leads(pool, event, after, pool_after, r),
    ensures
        event matches ZmqEvent::Sent(SocketUse::NotLocked(why)) ==> (r matches ZmqAction::End(Err(e))
            && run.operation.is_error(e, run.operation.spec_lock_failed() + why@)),
        event matches ZmqEvent::Sent(SocketUse::Failed(why)) ==> (r matches ZmqAction::End(Err(e))
            && run.operation.is_error(e, run.operation.spec_send_failed() + why@)),
        event matches ZmqEvent::Received(SocketUse::NotLocked(why)) ==> (r matches ZmqAction::End(
            Err(e),
        ) && run.operation.is_error(e, run.operation.spec_lock_failed() + why@)),
        event matches ZmqEvent::Received(SocketUse::Failed(why)) ==> (r matches ZmqAction::End(Err(e))
            && run.operation.is_error(e, run.operation.spec_receive_failed() + why@)),
        event matches ZmqEvent::Received(SocketUse::Done(parts)) ==> (parts@.len() < 2 ==> (r matches
            ZmqAction::End(Err(e)) && run.operation.is_error(e, run.operation.spec_malformed()))),
        event matches ZmqEvent::SocketMade(Err(why)) ==> (r matches ZmqAction::End(
            Err(TransportError::ZmqPool(ZmqPoolError::InitializationError(m))),
        ) && m@ == "Failed to create "@ + run.operation.spec_socket_type().spec_name()
            + " socket: "@ + why@),
{
}

/// Each operation has its own pool and its own address: listeners subscribe, trajectories are
/// pushed, first models are asked of the agent listener, and all else goes to the scaling server.
pub proof fn law_operations_use_their_pools()
    ensures
        ZmqOperation::ListenForModel.spec_socket_type() == SocketPoolType::ModelSub,
        ZmqOperation::AlgorithmInit.spec_socket_type() == SocketPoolType::ScalingDealer,
        ZmqOperation::ModelHandshake.spec_socket_type() == SocketPoolType::ModelDealer,
        ZmqOperation::Trajectory.spec_socket_type() == SocketPoolType::TrajPush,
        ZmqOperation::ClientIds.spec_socket_type() == SocketPoolType::ScalingDealer,
        ZmqOperation::ScalingWarning.spec_socket_type() == SocketPoolType::ScalingDealer,
        ZmqOperation::ScalingComplete.spec_socket_type() == SocketPoolType::ScalingDealer,
        ZmqOperation::ShutdownSignal.spec_socket_type() == SocketPoolType::ScalingDealer,
        ZmqOperation::ListenForModel.spec_address_type() == CacheAddressType::ModelServer,
        ZmqOperation::AlgorithmInit.spec_address_type() == CacheAddressType::TrainingScalingServer,
        ZmqOperation::ModelHandshake.spec_address_type() == CacheAddressType::AgentListener,
        ZmqOperation::Trajectory.spec_address_type() == CacheAddressType::TrajectoryServer,
        ZmqOperation::ClientIds.spec_address_type() == CacheAddressType::TrainingScalingServer,
        ZmqOperation::ScalingWarning.spec_address_type() == CacheAddressType::TrainingScalingServer,
        ZmqOperation::ScalingComplete.spec_address_type() == CacheAddressType::TrainingScalingServer,
        ZmqOperation::ShutdownSignal.spec_address_type() == CacheAddressType::TrainingScalingServer,
{
}

/// A pool's sockets are all of one kind, and sockets of different kinds are registered under
/// different contexts with identities of different bases.
pub proof fn law_pools_hold_one_kind(t: SocketPoolType, kind: SocketKind)
    ensures
        t.spec_kind() == SocketKind::Sub <==> t == SocketPoolType::ModelSub,
        t.spec_kind() == SocketKind::Push <==> t == SocketPoolType::TrajPush,
        t.spec_kind() == SocketKind::Dealer <==> t == SocketPoolType::InferenceDealer || t
            == SocketPoolType::ModelDealer || t == SocketPoolType::ScalingDealer,
        kind is Dealer ==> kind.spec_identity_base() == 117 && kind.spec_context()
            == "zmq_dealer_socket"@,
        kind is Sub ==> kind.spec_identity_base() == 69 && kind.spec_context() == "zmq_sub_socket"@,
        kind is Push ==> kind.spec_identity_base() == 67 && kind.spec_context() == "zmq_push_socket"@,
        t == SocketPoolType::InferenceDealer ==> t.spec_name() == "InferenceDealer"@,
        t == SocketPoolType::ModelDealer ==> t.spec_name() == "ModelDealer"@,
        t == SocketPoolType::ModelSub ==> t.spec_name() == "ModelSub"@,
        t == SocketPoolType::TrajPush ==> t.spec_name() == "TrajPush"@,
        t == SocketPoolType::ScalingDealer ==> t.spec_name() == "ScalingDealer"@,
{
}

/// The kind of an error tells what failed, and its text is the description.
pub proof fn law_errors_tell_what_failed(operation: ZmqOperation, e: TransportError, message: Seq<char>)
    requires
        operation.is_error(e, message),
    ensures
        operation == ZmqOperation::ListenForModel ==> (e matches TransportError::ListenForModelError(m)
            && m@ == message),
        operation == ZmqOperation::AlgorithmInit ==> (e matches TransportError::SendAlgorithmInitRequestError(m)
            && m@ == message),
        operation == ZmqOperation::ModelHandshake ==> (e matches TransportError::ModelHandshakeError(m)
            && m@ == message),
        operation == ZmqOperation::Trajectory ==> (e matches TransportError::SendTrajError(m)
            && m@ == message),
        operation == ZmqOperation::ClientIds ==> (e matches TransportError::SendClientIdsToServerError(m)
            && m@ == message),
        operation == ZmqOperation::ScalingWarning ==> (e matches TransportError::SendScalingWarningError(m)
            && m@ == message),
        operation == ZmqOperation::ScalingComplete ==> (e matches TransportError::SendScalingCompleteError(m)
            && m@ == message),
        operation == ZmqOperation::ShutdownSignal ==> (e matches TransportError::SendShutdownSignalError(m)
            && m@ == message),
{
}

/// The words in which operations report what went wrong.
pub proof fn law_operations_report_in_their_words()
    ensures
        ZmqOperation::ListenForModel.spec_empty_address() == "Model server address is empty"@,
        ZmqOperation::AlgorithmInit.spec_empty_address() == "Agent listener address is empty"@,
        ZmqOperation::ModelHandshake.spec_empty_address() == "Agent listener address is empty"@,
        ZmqOperation::Trajectory.spec_empty_address() == "Trajectory server address is empty"@,
        ZmqOperation::ClientIds.spec_empty_address() == "Agent listener address is empty"@,
        ZmqOperation::ScalingWarning.spec_empty_address() == "Scaling server address is empty"@,
        ZmqOperation::ScalingComplete.spec_empty_address() == "Scaling server address is empty"@,
        ZmqOperation::ShutdownSignal.spec_empty_address() == "Scaling server address is empty"@,
        ZmqOperation::ListenForModel.spec_no_pool() == "SUB socket pool not initialized"@,
        ZmqOperation::AlgorithmInit.spec_no_pool() == "Scaling dealer socket pool not initialized"@,
        ZmqOperation::ModelHandshake.spec_no_pool() == "Model dealer socket pool not initialized"@,
        ZmqOperation::Trajectory.spec_no_pool() == "Trajectory push socket pool not initialized"@,
        ZmqOperation::ClientIds.spec_no_pool() == "Scaling dealer socket pool not initialized"@,
        ZmqOperation::ScalingWarning.spec_no_pool() == "Scaling dealer socket pool not initialized"@,
        ZmqOperation::ScalingComplete.spec_no_pool() == "Scaling dealer socket pool not initialized"@,
        ZmqOperation::ShutdownSignal.spec_no_pool() == "Scaling dealer socket pool not initialized"@,
        ZmqOperation::ListenForModel.spec_no_socket() == "SUB socket not found for receiver ID: "@,
        ZmqOperation::AlgorithmInit.spec_no_socket() == "Scaling dealer socket not found for ID: "@,
        ZmqOperation::ModelHandshake.spec_no_socket() == "Model dealer socket not found for actor ID: "@,
        ZmqOperation::Trajectory.spec_no_socket() == "Trajectory push socket not found for buffer ID: "@,
        ZmqOperation::ClientIds.spec_no_socket() == "Scaling dealer socket not found for ID: "@,
        ZmqOperation::ScalingWarning.spec_no_socket() == "Scaling dealer socket not found for ID: "@,
        ZmqOperation::ScalingComplete.spec_no_socket() == "Scaling dealer socket not found for ID: "@,
        ZmqOperation::ShutdownSignal.spec_no_socket() == "Scaling dealer socket not found for ID: "@,
        ZmqOperation::ListenForModel.spec_lock_failed() == "Failed to lock sub socket: "@,
        ZmqOperation::AlgorithmInit.spec_lock_failed() == "Failed to lock scaling dealer socket: "@,
        ZmqOperation::ModelHandshake.spec_lock_failed() == "Failed to lock dealer socket: "@,
        ZmqOperation::Trajectory.spec_lock_failed() == "Failed to lock push socket: "@,
        ZmqOperation::ClientIds.spec_lock_failed() == "Failed to lock scaling dealer socket: "@,
        ZmqOperation::ScalingWarning.spec_lock_failed() == "Failed to lock dealer socket: "@,
        ZmqOperation::ScalingComplete.spec_lock_failed() == "Failed to lock dealer socket: "@,
        ZmqOperation::ShutdownSignal.spec_lock_failed() == "Failed to lock dealer socket: "@,
        ZmqOperation::ListenForModel.spec_send_failed() == ""@,
        ZmqOperation::AlgorithmInit.spec_send_failed() == "Failed to send algorithm init request: "@,
        ZmqOperation::ModelHandshake.spec_send_failed() == "Failed to send GET_MODEL: "@,
        ZmqOperation::Trajectory.spec_send_failed() == "Failed to send trajectory: "@,
        ZmqOperation::ClientIds.spec_send_failed() == "Failed to send client IDs to server: "@,
        ZmqOperation::ScalingWarning.spec_send_failed() == "Failed to send scaling warning: "@,
        ZmqOperation::ScalingComplete.spec_send_failed() == "Failed to send scaling complete: "@,
        ZmqOperation::ShutdownSignal.spec_send_failed() == "Failed to send shutdown signal to server: "@,
        ZmqOperation::ListenForModel.spec_receive_failed() == "SUB socket recv error: "@,
        ZmqOperation::AlgorithmInit.spec_receive_failed() == ""@,
        ZmqOperation::ModelHandshake.spec_receive_failed() == "Failed to receive model: "@,
        ZmqOperation::Trajectory.spec_receive_failed() == ""@,
        ZmqOperation::ClientIds.spec_receive_failed() == "Failed to receive client IDs from server: "@,
        ZmqOperation::ScalingWarning.spec_receive_failed() == "Failed to receive scaling warning response: "@,
        ZmqOperation::ScalingComplete.spec_receive_failed() == "Failed to receive scaling complete response: "@,
        ZmqOperation::ShutdownSignal.spec_receive_failed() == "Failed to receive shutdown signal from server: "@,
        ZmqOperation::ListenForModel.spec_malformed() == "Malformed model update response"@,
        ZmqOperation::AlgorithmInit.spec_malformed() == ""@,
        ZmqOperation::ModelHandshake.spec_malformed() == "Malformed handshake response"@,
        ZmqOperation::Trajectory.spec_malformed() == ""@,
        ZmqOperation::ClientIds.spec_malformed() == "Malformed response"@,
        ZmqOperation::ScalingWarning.spec_malformed() == "Malformed scaling warning response"@,
        ZmqOperation::ScalingComplete.spec_malformed() == "Malformed scaling complete response"@,
        ZmqOperation::ShutdownSignal.spec_malformed() == "Malformed response"@,
        ZmqOperation::ListenForModel.spec_refused() == ""@,
        ZmqOperation::AlgorithmInit.spec_refused() == ""@,
        ZmqOperation::ModelHandshake.spec_refused() == ""@,
        ZmqOperation::Trajectory.spec_refused() == ""@,
        ZmqOperation::ClientIds.spec_refused() == "Server failed to acknowledge client IDs"@,
        ZmqOperation::ScalingWarning.spec_refused() == "Server failed to acknowledge scaling warning"@,
        ZmqOperation::ScalingComplete.spec_refused() == "Server failed to acknowledge scaling complete"@,
        ZmqOperation::ShutdownSignal.spec_refused() == "Server failed to acknowledge shutdown signal"@,
        ZmqOperation::ListenForModel.spec_unreadable() == ""@,
        ZmqOperation::AlgorithmInit.spec_unreadable() == ""@,
        ZmqOperation::ModelHandshake.spec_unreadable() == ""@,
        ZmqOperation::Trajectory.spec_unreadable() == ""@,
        ZmqOperation::ClientIds.spec_unreadable() == "Failed to parse server response: "@,
        ZmqOperation::ScalingWarning.spec_unreadable() == "Failed to parse scaling warning response: "@,
        ZmqOperation::ScalingComplete.spec_unreadable() == "Failed to parse scaling complete response: "@,
        ZmqOperation::ShutdownSignal.spec_unreadable() == "Failed to parse shutdown signal response: "@,
        ModelFileStep::CreateFile.spec_failure() == "Failed to create temp file: "@,
        ModelFileStep::WriteFile.spec_failure() == "Failed to write model to temp file: "@,
        ModelFileStep::Load.spec_failure() == "Failed to load model: "@,
        ModelFileStep::Validate.spec_failure() == "Failed to validate model: "@,
{
}

/// An address is taken over exactly for identities of which addresses are kept. A new socket is
/// needed exactly if the address was another, and afterwards it is the one that is kept. Sockets and
/// listeners are left alone.
pub proof fn law_another_address_needs_a_socket(
    pool: ZmqPool,
    identity: u128,
    address: Seq<char>,
    t: CacheAddressType,
    after: ZmqPool,
    r: Result<bool, ZmqPoolError>,
)
    requires
        pool.updates(identity, address, t, after, r),
    ensures
        r is Ok <==> pool.cached() is Some && pool.cached()->0.contains_key(identity),
        r matches Ok(changed) ==> {
            &&& changed <==> address_at(pool.cached()->0[identity], t)@ != address
            &&& after.cached() is Some && after.cached()->0.contains_key(identity)
            &&& address_at(after.cached()->0[identity], t)@ == address
        },
        r matches Err(e) ==> (e matches ZmqPoolError::ReadError(m) && m@
            == "Cached addresses not available"@) && after.cached() == pool.cached(),
        after.cached_sockets == pool.cached_sockets,
        after.listeners == pool.listeners,
        after.client_namespace == pool.client_namespace,
        after.transport_shutting_down == pool.transport_shutting_down,
{
}

/// Which of the kept addresses is which.
pub proof fn law_addresses_have_their_places(a: SharedTransportAddresses)
    ensures
        address_at(a, CacheAddressType::InferenceServer)
            == a.zmq_inference_addresses.inference_server_address,
        address_at(a, CacheAddressType::InferenceScalingServer)
            == a.zmq_inference_addresses.inference_scaling_server_address,
        address_at(a, CacheAddressType::AgentListener)
            == a.zmq_training_addresses.agent_listener_address,
        address_at(a, CacheAddressType::ModelServer)
            == a.zmq_training_addresses.model_server_address,
        address_at(a, CacheAddressType::TrajectoryServer)
            == a.zmq_training_addresses.trajectory_server_address,
        address_at(a, CacheAddressType::TrainingScalingServer)
            == a.zmq_training_addresses.training_scaling_server_address,
{
}

/// A socket is kept exactly if it was made and its pool is there, and changes no other pool.
pub proof fn law_only_made_sockets_are_kept(
    pool: ZmqPool,
    identity: u128,
    t: SocketPoolType,
    created: Result<u64, String>,
    after: ZmqPool,
    r: Result<bool, ZmqPoolError>,
    other: SocketPoolType,
    id: u128,
)
    requires
        pool.stores(identity, t, created, after, r),
    ensures
        r is Ok <==> created is Ok && pool.cached_sockets.of(t) is Some,
        r is Ok ==> after.cached_sockets.has(t, identity) && after.cached_sockets.of(t)->0[identity]
            == created->Ok_0,
        r is Err ==> after.cached_sockets.of(t) == pool.cached_sockets.of(t),
        other != t ==> after.cached_sockets.of(other) == pool.cached_sockets.of(other),
        id != identity ==> (after.cached_sockets.has(t, id) <==> pool.cached_sockets.has(t, id)),
        after.cached_addresses == pool.cached_addresses,
        after.listeners == pool.listeners,
{
}

/// A socket is found exactly if one is kept for the identity in the operation's pool.
pub proof fn law_only_kept_sockets_are_found(
    pool: ZmqPool,
    operation: ZmqOperation,
    identity: u128,
    r: Result<u64, TransportError>,
)
    requires
        pool.finds(operation, identity, r),
    ensures
        r is Ok <==> pool.cached_sockets.has(operation.spec_socket_type(), identity),
        r matches Ok(socket) ==> socket == pool.cached_sockets.of(
            operation.spec_socket_type(),
        )->0[identity],
        pool.cached_sockets.of(operation.spec_socket_type()) is None ==> operation.is_error(
            r->Err_0,
            operation.spec_no_pool(),
        ),
        pool.cached_sockets.of(operation.spec_socket_type()) is Some && r is Err
            ==> operation.is_error(r->Err_0, operation.spec_no_socket() + uuid_chars(identity)),
{
}

/// A reply is a yes exactly if it has a second part that reads as nought.
pub proof fn law_only_nought_acknowledges(
    operation: ZmqOperation,
    received: Result<Vec<Vec<u8>>, String>,
    r: Result<(), TransportError>,
)
    requires
        acknowledgement_means(operation, received, r),
    ensures
        r is Ok <==> (received matches Ok(parts) && parts@.len() >= 2 && (parsed_i64(
            lossy_utf8(parts@[1]@),
        ) matches Ok(value) && value == 0)),
        received matches Ok(parts) ==> (parts@.len() >= 2 ==> (parsed_i64(
            lossy_utf8(parts@[1]@),
        ) matches Ok(value) ==> (value != 0 ==> operation.is_error(
            r->Err_0,
            operation.spec_refused(),
        )))),
        received matches Ok(parts) ==> (parts@.len() >= 2 ==> (parsed_i64(
            lossy_utf8(parts@[1]@),
        ) matches Err(fault) ==> operation.is_error(
            r->Err_0,
            operation.spec_unreadable() + fault.spec_message(),
        ))),
{
}

/// A request is framed by an empty frame, who sends it and for whom, and then what it adds. Both are
/// named under the namespace of the one it is for.
pub proof fn law_requests_name_their_sender(transport: IdEntry, entry: IdEntry, rest: Seq<Seq<u8>>, i: int)
    ensures
        request_frames(transport, entry, rest).len() == rest.len() + 3,
        request_frames(transport, entry, rest)[0].len() == 0,
        request_frames(transport, entry, rest)[1] == vstd::utf8::encode_utf8(
            entry.namespace@ + ":"@ + transport.context@ + ":"@ + uuid_chars(transport.id),
        ),
        request_frames(transport, entry, rest)[2] == vstd::utf8::encode_utf8(
            entry.namespace@ + ":"@ + entry.context@ + ":"@ + uuid_chars(entry.id),
        ),
        0 <= i < rest.len() ==> request_frames(transport, entry, rest)[i + 3] == rest[i],
{
}

/// A request is prepared exactly for a whole entry, an address, and an identity of which addresses
/// are kept. It is the operation asked for, through the entry's own socket, which has to be made
/// exactly if the address is another than before. What is refused leaves everything as it was.
pub proof fn law_prepared_requests_are_those_asked_for(
    before: ZmqTrainingOps,
    after: ZmqTrainingOps,
    operation: ZmqOperation,
    entry: IdEntry,
    address: Seq<char>,
    rest: Result<Seq<Seq<u8>>, Seq<char>>,
    r: Result<ZmqRequest, TransportError>,
)
    requires
        ZmqTrainingOps::prepared(before, after, operation, entry, address, rest, r),
    ensures
        r is Ok <==> entry.id != 0 && entry.context@.len() > 0 && entry.namespace@.len() > 0
            && address.len() > 0 && before.pool.cached() is Some
            && before.pool.cached()->0.contains_key(entry.id),
        r matches Ok(request) ==> {
            &&& request.operation == operation
            &&& request.identity == entry.id
            &&& request.needs_socket <==> address_at(
                before.pool.cached()->0[entry.id],
                operation.spec_address_type(),
            )@ != address
            &&& request.frames is Ok <==> rest is Ok
            &&& request.frames matches Ok(frames) ==> frame_views(frames@) == request_frames(
                before.transport_entry,
                entry,
                rest->Ok_0,
            )
            &&& request.frames matches Err(e) ==> operation.is_error(e, rest->Err_0)
            &&& address_at(after.pool.cached()->0[entry.id], operation.spec_address_type())@ == address
        },
        r is Err ==> after.pool.cached() == before.pool.cached(),
        after.pool.cached_sockets == before.pool.cached_sockets,
        after.pool.listeners == before.pool.listeners,
        after.transport_entry == before.transport_entry,
        address.len() == 0 && entry.id != 0 && entry.context@.len() > 0 && entry.namespace@.len() > 0
            ==> operation.is_error(r->Err_0, operation.spec_empty_address()),
{
}

/// Listening starts exactly for a whole entry with an address and somebody to hand models to, while
/// the transport is not shutting down and addresses are kept; while it shuts down it does not start,
/// which is no failure. What is refused registers no listener.
pub proof fn law_listening_starts_only_when_it_can(
    before: ZmqTrainingOps,
    after: ZmqTrainingOps,
    receiver_entry: IdEntry,
    address: Seq<char>,
    receiver_closed: bool,
    r: Result<Option<ListenPlan>, TransportError>,
)
    requires
        before.listens(after, receiver_entry, address, receiver_closed, r),
    ensures
        ({
            let whole = receiver_entry.id != 0 && receiver_entry.context@.len() > 0
                && receiver_entry.namespace@.len() > 0 && address.len() > 0;
            let kept = before.pool.cached() is Some && before.pool.cached()->0.contains_key(
                receiver_entry.id,
            );
            &&& r is Ok && r->Ok_0 is Some <==> whole && !receiver_closed
                && !before.pool.transport_shutting_down && kept
            &&& r is Ok && r->Ok_0 is None <==> whole && !receiver_closed
                && before.pool.transport_shutting_down
            &&& !whole || receiver_closed || before.pool.transport_shutting_down ==> after == before
            &&& r is Ok && r->Ok_0 is Some ==> {
                &&& r->Ok_0->0.needs_socket <==> address_at(
                    before.pool.cached()->0[receiver_entry.id],
                    CacheAddressType::ModelServer,
                )@ != address
                &&& address_at(
                    after.pool.cached()->0[receiver_entry.id],
                    CacheAddressType::ModelServer,
                )@ == address
                &&& before.pool.listeners.registers(
                    after.pool.listeners,
                    receiver_entry.id,
                    r->Ok_0->0.handle,
                )
            }
        }),
        after.transport_entry == before.transport_entry,
        after.pool.cached_sockets == before.pool.cached_sockets,
{
}

/// When the transport shuts down, the entry of each of its sockets but those for inference is taken
/// from the registry once, first those for first models, then the listeners', the trajectories' and
/// the scaling ones, and the transport's own comes last.
pub proof fn law_sockets_are_removed_in_order(
    ops: ZmqTrainingOps,
    list: Seq<RegistryRemoval>,
    i: int,
    j: int,
    t: SocketPoolType,
    id: u128,
)
    requires
        ops.lists_removals(list),
        0 <= i < j < list.len(),
    ensures
        list[i].pool is Some && list[i].pool != Some(SocketPoolType::InferenceDealer),
        list[i].entry.namespace@ == "client"@,
        ops.pool.cached_sockets.has(list[i].pool->0, list[i].entry.id),
        list[i].pool == Some(SocketPoolType::ModelDealer) || list[i].pool == Some(
            SocketPoolType::ScalingDealer,
        ) ==> list[i].entry.context@ == "zmq_dealer_socket"@,
        list[i].pool == Some(SocketPoolType::ModelSub) ==> list[i].entry.context@
            == "zmq_sub_socket"@,
        list[i].pool == Some(SocketPoolType::TrajPush) ==> list[i].entry.context@
            == "zmq_push_socket"@,
        list[j].pool == Some(SocketPoolType::ModelDealer) ==> list[i].pool == Some(
            SocketPoolType::ModelDealer,
        ),
        list[j].pool == Some(SocketPoolType::ModelSub) ==> list[i].pool == Some(
            SocketPoolType::ModelDealer,
        ) || list[i].pool == Some(SocketPoolType::ModelSub),
        list[j].pool == Some(SocketPoolType::TrajPush) ==> list[i].pool != Some(
            SocketPoolType::ScalingDealer,
        ),
        list[j].pool is None <==> j == list.len() - 1,
        list[i].pool == list[j].pool ==> list[i].entry.id != list[j].entry.id,
        list.last().entry.id == ops.transport_entry.id,
        list.last().entry.namespace@ == ops.transport_entry.namespace@,
        list.last().entry.context@ == ops.transport_entry.context@,
        t != SocketPoolType::InferenceDealer && ops.pool.cached_sockets.has(t, id) ==> exists|k: int|
            0 <= k < list.len() && (#[trigger] list[k]).pool == Some(t) && list[k].entry.id == id,
{
    let rest = list.drop_last();
    assert(rest[i] == list[i]);
    if j < rest.len() {
        assert(rest[j] == list[j]);
    }
    if t != SocketPoolType::InferenceDealer && ops.pool.cached_sockets.has(t, id) {
        let k = choose|k: int|
            0 <= k < rest.len() && (#[trigger] rest[k]).pool == Some(t) && rest[k].entry.id == id;
        assert(list[k] == rest[k]);
    }
}

/// What was not yet taken from the registry when it refused is still kept.
pub proof fn law_refused_shutdowns_keep_the_rest(
    before: ZmqTrainingOps,
    list: Seq<RegistryRemoval>,
    done: int,
    after: ZmqTrainingOps,
    r: Result<(), TransportError>,
    i: int,
)
    requires
        before.walks(list, done, after, r),
        0 <= i < list.len() - 1,
    ensures
        after.pool.cached_sockets.has(list[i].pool->0, list[i].entry.id) <==> i >= done,
        r is Ok <==> done == list.len(),
{
    let rest = list.drop_last();
    assert(rest[i] == list[i]);
    let t = list[i].pool->0;
    let id = list[i].entry.id;
    assert(before.pool.cached_sockets.has(t, id));
    if i < done {
        assert(is_among(list, done, t, id));
    } else if is_among(list, done, t, id) {
        let k = choose|k: int|
            0 <= k < done && (#[trigger] list[k]).pool == Some(t) && list[k].entry.id == id;
        assert(rest[k] == list[k]);
    }
}

/// Eight bytes write a signed number: the one of their unsigned value, or less by a power of two
/// where that would not fit.
pub proof fn law_versions_are_signed(bytes: Seq<u8>)
    requires
        bytes.len() == 8,
    ensures
        i64::MIN <= signed_big_endian(bytes) <= i64::MAX,
        signed_big_endian(bytes) == big_endian(bytes) || signed_big_endian(bytes) == big_endian(bytes)
            - 0x1_0000_0000_0000_0000,
        signed_big_endian(bytes) >= 0 <==> signed_big_endian(bytes) == big_endian(bytes),
{
    lemma_big_endian_bound(bytes);
}

/// The frames of a model update become a message exactly if there are four, with a model, an actor
/// of sixteen bytes and a version of eight. The message is for that actor and brings that model in
/// that version. Without a model or an actor an update is passed over.
pub proof fn law_model_updates_reach_their_actor(
    parts: Seq<Seq<u8>>,
    r: Result<Option<RoutedMessage>, TransportError>,
)
    requires
        update_means(parts, r),
    ensures
        r is Ok && r->Ok_0 is Some <==> parts.len() >= 4 && parts[1].len() > 0 && parts[2].len() == 16
            && parts[3].len() == 8,
        r is Ok && r->Ok_0 is None <==> parts.len() >= 4 && (parts[1].len() == 0 || parts[2].len()
            != 16),
        r is Ok && r->Ok_0 is Some ==> {
            let message = r->Ok_0->0;
            &&& message.actor_id == big_endian(parts[2]) as u128
            &&& message.protocol == RoutingProtocol::ModelUpdate
            &&& message.payload matches RoutedPayload::ModelUpdate { model_bytes, version }
            &&& model_bytes@ == parts[1]
            &&& version == signed_big_endian(parts[3])
        },
        r matches Err(e) ==> e is ListenForModelError,
{
}

/// A listener ends well exactly when it was told to stop, hands on what reads as a message, goes on
/// after what is passed over and what did not come in time, and ends with an error otherwise.
pub proof fn law_listening_ends_well_only_when_told(event: ListenEvent, r: ListenAction)
    requires
        listening(event, r),
    ensures
        event matches ListenEvent::Turn { stopping } ==> (r == ListenAction::End(Ok(())) <==> stopping)
            && (r is Receive <==> !stopping),
        event matches ListenEvent::TimedOut { stopping } ==> (r == ListenAction::End(Ok(()))
            <==> stopping) && (r is NextTurn <==> !stopping),
        event matches ListenEvent::ForwardFailed { stopping, .. } ==> r is End && (r->End_0 is Ok
            <==> stopping),
        event is Forwarded ==> r is NextTurn,
        event is ReceiveFailed ==> r is End && r->End_0 is Err && r->End_0->Err_0 is ListenForModelError,
        r is Forward ==> event is Received,
        event matches ListenEvent::Received(parts) ==> {
            let frames = frame_views(parts@);
            &&& r is Forward <==> frames.len() >= 4 && frames[1].len() > 0 && frames[2].len() == 16
                && frames[3].len() == 8
            &&& r is NextTurn <==> frames.len() >= 4 && (frames[1].len() == 0 || frames[2].len() != 16)
            &&& r is Forward || r is NextTurn || (r is End && r->End_0 is Err)
            &&& r matches ListenAction::Forward(message) ==> update_means(frames, Ok(Some(message)))
        },
{
}

/// A shutdown of inference that succeeds leaves no socket for inference and every other as it was. The
/// entries that are taken from the registry for it are those of these sockets, one for each.
pub proof fn law_inference_shutdown_forgets_its_sockets(
    before: ZmqSocketPool,
    after: ZmqSocketPool,
    list: Seq<RegistryRemoval>,
    done: int,
    t: SocketPoolType,
    id: u128,
    i: int,
)
    requires
        lists_sockets(before, SocketPoolType::InferenceDealer, list),
        walked(before, after, list, done, Ok(())),
    ensures
        !after.has(SocketPoolType::InferenceDealer, id),
        t != SocketPoolType::InferenceDealer ==> after.of(t) == before.of(t),
        0 <= i < list.len() ==> list[i].entry.namespace@ == "client"@ && list[i].entry.context@
            == "zmq_dealer_socket"@ && before.has(SocketPoolType::InferenceDealer, list[i].entry.id),
{
    if before.has(SocketPoolType::InferenceDealer, id) {
        let k = choose|k: int| 0 <= k < list.len() && (#[trigger] list[k]).entry.id == id;
        assert(stands_for(list[k], SocketPoolType::InferenceDealer));
        assert(is_among(list, done, SocketPoolType::InferenceDealer, id));
    }
    if t != SocketPoolType::InferenceDealer {
        assert forall|other: u128| !is_among(list, done, t, other) by {
            if is_among(list, done, t, other) {
                let k = choose|k: int|
                    0 <= k < done && (#[trigger] list[k]).pool == Some(t) && list[k].entry.id
                        == other;
                assert(stands_for(list[k], SocketPoolType::InferenceDealer));
            }
        }
        assert(after.of(t) is Some <==> before.of(t) is Some);
        if let Some(b) = before.of(t) {
            let gone = Set::new(|other: u128| is_among(list, done, t, other));
            assert(b.remove_keys(gone) =~= b);
        }
    }
}

/// A request for an entry that cannot be named to a server is refused with the fault of the entry,
/// before its address is looked at, and whatever the operation.
pub proof fn law_faulty_entries_are_refused(
    operation: ZmqOperation,
    entry: IdEntry,
    address: Seq<char>,
    e: TransportError,
)
    requires
        refusal(operation, entry, address, e),
    ensures
        entry.id == 0 ==> (e matches TransportError::InvalidState(m) && m@ == "ID is nil"@),
        entry.id != 0 && entry.context@.len() == 0 ==> (e matches TransportError::InvalidState(m)
            && m@ == "Context is empty"@),
        entry.id != 0 && entry.context@.len() > 0 && entry.namespace@.len() == 0 ==> (e matches
            TransportError::InvalidState(m) && m@ == "Namespace is empty"@),
        entry.id != 0 && entry.context@.len() > 0 && entry.namespace@.len() > 0 ==> address.len()
            == 0 && operation.is_error(e, operation.spec_empty_address()),
{
}

/// A reply to a handshake brings its second part exactly if it has one; else the handshake failed,
/// and the report says why.
pub proof fn law_model_replies_bring_their_second_part(
    received: Result<Vec<Vec<u8>>, String>,
    r: Result<Vec<u8>, TransportError>,
)
    requires
        model_reply_means(received, r),
    ensures
        r is Ok <==> received is Ok && received->Ok_0@.len() >= 2,
        r matches Ok(model) ==> model@ == received->Ok_0@[1]@,
        received matches Err(why) ==> (r matches Err(TransportError::ModelHandshakeError(m)) && m@
            == "Failed to receive model: "@ + why@),
        received is Ok && r is Err ==> (r matches Err(TransportError::ModelHandshakeError(m)) && m@
            == "Malformed handshake response"@),
{
}

} // verus!
