//! How a client runs its actors: where inference takes place and what becomes of training data.

use crate::paths::{FilePath, PathView};
use crate::transport_config::NetworkParams;
use vstd::prelude::*;

verus! {

/// Whether actors on one device share a model.
#[derive(Clone, Copy, Debug, PartialEq, Eq, Structural)]
pub enum ModelMode {
    Independent,
    Shared,
}

impl ModelMode {
    /// The name that servers know the mode by.
    pub open spec fn spec_name(self) -> Seq<char> {
        match self {
            ModelMode::Independent => "Independent"@,
            ModelMode::Shared => "Shared"@,
        }
    }

    /// The name that servers know the mode by.
    pub fn name(&self) -> (r: String)
        ensures
            r@ == self.spec_name(),
    {
        match self {
            ModelMode::Independent => "Independent".to_owned(),
            ModelMode::Shared => "Shared".to_owned(),
        }
    }
}

/// The transports that a client can speak.
#[derive(Clone, Copy, Debug, PartialEq, Eq, Structural)]
pub enum TransportType {
    NATS,
    ZMQ,
}

impl Default for TransportType {
    fn default() -> (r: Self)
        ensures
            r == TransportType::NATS,
    {
        TransportType::NATS
    }
}

/// Addresses of a ZeroMQ inference server that take the place of the configured ones.
pub struct ZmqInferenceAddressArgs {
    pub inference_server_address: Option<NetworkParams>,
    pub inference_scaling_server_address: Option<NetworkParams>,
}

/// Addresses of a ZeroMQ training server that take the place of the configured ones.
pub struct ZmqTrainingAddressArgs {
    pub agent_listener_address: Option<NetworkParams>,
    pub model_server_address: Option<NetworkParams>,
    pub trajectory_server_address: Option<NetworkParams>,
    pub training_scaling_server_address: Option<NetworkParams>,
}

/// Inference addresses, for one transport or the other.
pub enum InferenceAddressesArgs {
    NATS(Option<NetworkParams>),
    ZMQ(ZmqInferenceAddressArgs),
}

/// Training addresses, for one transport or the other.
pub enum TrainingAddressesArgs {
    NATS(Option<NetworkParams>),
    ZMQ(ZmqTrainingAddressArgs),
}

/// How an inference server is reached.
pub struct InferenceServerParams {
    pub inference_addresses: Option<InferenceAddressesArgs>,
}

/// How a training server is reached.
pub struct TrainingServerParams {
    pub training_addresses: Option<TrainingAddressesArgs>,
}

/// Where actions are computed.
pub enum ActorInferenceMode {
    Local(ModelMode),
    Server(InferenceServerParams),
    ServerOverflow(ModelMode, InferenceServerParams),
}

/// The formats of trajectory files.
#[derive(Clone, Copy, Debug, PartialEq, Eq, Structural)]
pub enum LocalTrajectoryFileType {
    Csv,
    Arrow,
}

/// Where trajectory files are written, and in which format.
#[derive(Debug)]
pub struct LocalTrajectoryFileParams {
    pub directory: FilePath,
    pub file_type: LocalTrajectoryFileType,
}

impl LocalTrajectoryFileParams {
    /// Whether the parameters hold this directory and this format.
    pub open spec fn reads(self, directory: PathView, file_type: LocalTrajectoryFileType) -> bool {
        self.directory@ == directory && self.file_type == file_type
    }
}

impl Clone for LocalTrajectoryFileParams {
    fn clone(&self) -> (r: Self)
        ensures
            r == *self,
    {
        LocalTrajectoryFileParams { directory: self.directory.clone(), file_type: self.file_type }
    }
}

impl Default for LocalTrajectoryFileParams {
    fn default() -> (r: Self)
        ensures
            r.reads(PathView::Plain("experiment_data"@), LocalTrajectoryFileType::Csv),
    {
        LocalTrajectoryFileParams {
            directory: FilePath::of("experiment_data"),
            file_type: LocalTrajectoryFileType::Csv,
        }
    }
}

/// What becomes of the trajectories that actors record.
pub enum ActorTrainingDataMode {
    Disabled,
    OfflineWithFiles(Option<LocalTrajectoryFileParams>),
    OfflineWithMemory,
    Online(TrainingServerParams),
    OnlineWithFiles(TrainingServerParams, Option<LocalTrajectoryFileParams>),
    OnlineWithMemory(TrainingServerParams),
}

/// The modes of a client.
pub struct ClientModes {
    pub actor_inference_mode: ActorInferenceMode,
    pub actor_training_data_mode: ActorTrainingDataMode,
}

fn clone_address(a: &Option<NetworkParams>) -> (r: Option<NetworkParams>)
    ensures
        r == *a,
{
    match a {
        Some(address) => Some(address.clone()),
        None => None,
    }
}

impl Clone for ZmqInferenceAddressArgs {
    fn clone(&self) -> (r: Self)
        ensures
            r == *self,
    {
        ZmqInferenceAddressArgs {
            inference_server_address: clone_address(&self.inference_server_address),
            inference_scaling_server_address: clone_address(&self.inference_scaling_server_address),
        }
    }
}

impl Clone for ZmqTrainingAddressArgs {
    fn clone(&self) -> (r: Self)
        ensures
            r == *self,
    {
        ZmqTrainingAddressArgs {
            agent_listener_address: clone_address(&self.agent_listener_address),
            model_server_address: clone_address(&self.model_server_address),
            trajectory_server_address: clone_address(&self.trajectory_server_address),
            training_scaling_server_address: clone_address(&self.training_scaling_server_address),
        }
    }
}

impl Clone for InferenceAddressesArgs {
    fn clone(&self) -> (r: Self)
        ensures
            r == *self,
    {
        match self {
            InferenceAddressesArgs::NATS(a) => InferenceAddressesArgs::NATS(clone_address(a)),
            InferenceAddressesArgs::ZMQ(a) => InferenceAddressesArgs::ZMQ(a.clone()),
        }
    }
}

impl Clone for TrainingAddressesArgs {
    fn clone(&self) -> (r: Self)
        ensures
            r == *self,
    {
        match self {
            TrainingAddressesArgs::NATS(a) => TrainingAddressesArgs::NATS(clone_address(a)),
            TrainingAddressesArgs::ZMQ(a) => TrainingAddressesArgs::ZMQ(a.clone()),
        }
    }
}

impl Clone for InferenceServerParams {
    fn clone(&self) -> (r: Self)
        ensures
            r == *self,
    {
        InferenceServerParams {
            inference_addresses: match &self.inference_addresses {
                Some(a) => Some(a.clone()),
                None => None,
            },
        }
    }
}

impl Clone for TrainingServerParams {
    fn clone(&self) -> (r: Self)
        ensures
            r == *self,
    {
        TrainingServerParams {
            training_addresses: match &self.training_addresses {
                Some(a) => Some(a.clone()),
                None => None,
            },
        }
    }
}

impl Clone for ActorInferenceMode {
    fn clone(&self) -> (r: Self)
        ensures
            r == *self,
    {
        match self {
            ActorInferenceMode::Local(mode) => ActorInferenceMode::Local(*mode),
            ActorInferenceMode::Server(params) => ActorInferenceMode::Server(params.clone()),
            ActorInferenceMode::ServerOverflow(mode, params) => ActorInferenceMode::ServerOverflow(
                *mode,
                params.clone(),
            ),
        }
    }
}

fn clone_files(files: &Option<LocalTrajectoryFileParams>) -> (r: Option<LocalTrajectoryFileParams>)
    ensures
        r == *files,
{
    match files {
        Some(params) => Some(params.clone()),
        None => None,
    }
}

impl Clone for ActorTrainingDataMode {
    fn clone(&self) -> (r: Self)
        ensures
            r == *self,
    {
        match self {
            ActorTrainingDataMode::Disabled => ActorTrainingDataMode::Disabled,
            ActorTrainingDataMode::OfflineWithFiles(files) =>
                ActorTrainingDataMode::OfflineWithFiles(clone_files(files)),
            ActorTrainingDataMode::OfflineWithMemory => ActorTrainingDataMode::OfflineWithMemory,
            ActorTrainingDataMode::Online(params) => ActorTrainingDataMode::Online(params.clone()),
            ActorTrainingDataMode::OnlineWithFiles(params, files) =>
                ActorTrainingDataMode::OnlineWithFiles(params.clone(), clone_files(files)),
            ActorTrainingDataMode::OnlineWithMemory(params) =>
                ActorTrainingDataMode::OnlineWithMemory(params.clone()),
        }
    }
}

impl Clone for ClientModes {
    fn clone(&self) -> (r: Self)
        ensures
            r == *self,
    {
        ClientModes {
            actor_inference_mode: self.actor_inference_mode.clone(),
            actor_training_data_mode: self.actor_training_data_mode.clone(),
        }
    }
}

impl ActorInferenceMode {
    /// Whether actors compute locally with one model per device.
    pub open spec fn spec_shares_local_model(self) -> bool {
        self == ActorInferenceMode::Local(ModelMode::Shared)
    }

    /// Whether actors compute locally with one model per device.
    pub fn shares_local_model(&self) -> (r: bool)
        ensures
            r == self.spec_shares_local_model(),
    {
        match self {
            ActorInferenceMode::Local(ModelMode::Shared) => true,
            _ => false,
        }
    }

    /// Whether a server takes part in inference.
    pub open spec fn spec_uses_server(self) -> bool {
        !(self is Local)
    }

    /// Whether a server takes part in inference.
    pub fn uses_server(&self) -> (r: bool)
        ensures
            r == self.spec_uses_server(),
    {
        match self {
            ActorInferenceMode::Local(_) => false,
            _ => true,
        }
    }
}

impl ActorTrainingDataMode {
    /// Whether trajectories go to a training server.
    pub open spec fn spec_is_online(self) -> bool {
        self is Online || self is OnlineWithFiles || self is OnlineWithMemory
    }

    /// Whether trajectories go to a training server.
    pub fn is_online(&self) -> (r: bool)
        ensures
            r == self.spec_is_online(),
    {
        match self {
            ActorTrainingDataMode::Online(_) => true,
            ActorTrainingDataMode::OnlineWithFiles(_, _) => true,
            ActorTrainingDataMode::OnlineWithMemory(_) => true,
            _ => false,
        }
    }
}

/// A server takes part in inference in every mode but the local ones, and only a local mode can
/// share one model per device.
pub proof fn law_inference_is_local_or_at_a_server(mode: ActorInferenceMode)
    ensures
        mode is Server || mode is ServerOverflow <==> mode.spec_uses_server(),
        mode is Local <==> !mode.spec_uses_server(),
        mode.spec_shares_local_model() ==> !mode.spec_uses_server(),
        mode.spec_shares_local_model() <==> (mode matches ActorInferenceMode::Local(how) && how
            == ModelMode::Shared),
{
}

/// Trajectories go to a training server in each of the online modes and in none of the others.
pub proof fn law_training_is_online_or_not(mode: ActorTrainingDataMode)
    ensures
        mode is Online || mode is OnlineWithFiles || mode is OnlineWithMemory
            <==> mode.spec_is_online(),
        mode is Disabled || mode is OfflineWithFiles || mode is OfflineWithMemory
            <==> !mode.spec_is_online(),
{
}

/// The names that servers know the ways of sharing a model by.
pub proof fn law_servers_know_the_modes_by_name(mode: ModelMode)
    ensures
        mode is Independent ==> mode.spec_name() == "Independent"@,
        mode is Shared ==> mode.spec_name() == "Shared"@,
{
}

} // verus!
