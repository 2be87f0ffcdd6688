//! The coordination of a client runtime: what it is started with, what its actors are asked and
//! what servers are told.
//!
//! Transports, tasks, models and files live outside this module: it decides what is to be done with
//! them and is told what came of it.

use crate::configuration::ClientConfigLoader;
use crate::errors::{
    ClientConfigError, CoordinatorError, ScaleManagerError, StateManagerError, TransportError,
};
use crate::hyperparameters::{arguments_of, Algorithm};
use crate::ids::{lemma_text_is_unique, uuid_chars, uuid_text};
use crate::lifecycle::{addresses_of, is_output_below, LifecycleManager};
use crate::maps::{names_get, tokens_len};
use crate::messages::{RoutedMessage, RoutedPayload, RoutingProtocol};
use crate::modes::{
    ActorInferenceMode, ActorTrainingDataMode, ClientModes, InferenceAddressesArgs,
    InferenceServerParams, LocalTrajectoryFileParams, TrainingAddressesArgs, TrainingServerParams,
    TransportType,
};
use crate::numbers::Real;
use crate::paths::PathView;
use crate::registry::{
    answers_context, answers_namespace, clear_namespace, context_entries, lists_context,
    namespace_entries, pool_error_chars, refuses_reservation, remove_namespace,
    reserve_namespace, reserve_slot, unknown_context, IdEntry, IdSlot,
};
use crate::state::{
    bound, canonical, law_dispatch_targets_cover_actors, lists_wanted, representatives, ActorTokens,
    ModelLoad, NewActor, RemovedActor, StateManager, ACTOR_CONTEXT,
};
use crate::transport_config::{
    NatsTransportAddresses, NetworkParams, TransportConfigParams, ZmqTransportAddresses,
    ZmqTransportInferenceAddresses, ZmqTransportTrainingAddresses,
};
use active_uuid_registry::UuidPoolError;
use vstd::prelude::*;

verus! {

/// How many messages a channel of the runtime holds.
pub const CHANNEL_THROUGHPUT: usize = 256_000;

/// What the namespaces of clients begin with.
pub const CLIENT_NAMESPACE_PREFIX: &'static str = "client";

/// What can be asked of a coordinator only while a runtime is there.
#[derive(Clone, Copy, Debug, PartialEq, Eq, Structural)]
pub enum RuntimeOperation {
    RequestAction,
    FlagLastAction,
    GetModelVersion,
    GetTrajectoryMemory,
    ScaleOut,
    ScaleIn,
    GetConfig,
    SetConfigPath,
    NewActor,
    RemoveActor,
    SetActorId,
    RunEnv,
    SetEnv,
    GetEnvCount,
    IncreaseEnvCount,
    DecreaseEnvCount,
    RemoveEnv,
    UpdateModel,
    SendClientIds,
    SendAlgorithmInit,
    SendInferenceModelInit,
    Shutdown,
}

impl RuntimeOperation {
    /// Whether an error says that there is no runtime for the operation.
    pub open spec fn is_missing_runtime(self, e: CoordinatorError) -> bool {
        match self {
            RuntimeOperation::RequestAction => e matches CoordinatorError::ScaleManagerError(
                ScaleManagerError::GetRouterRuntimeParamsError(m),
            ) && m@ == "[Coordinator] No runtime instance to request_action..."@,
            RuntimeOperation::FlagLastAction => e matches CoordinatorError::ScaleManagerError(
                ScaleManagerError::GetRouterRuntimeParamsError(m),
            ) && m@ == "[Coordinator] No runtime instance to flag_last_action..."@,
            RuntimeOperation::GetModelVersion => e matches CoordinatorError::ScaleManagerError(
                ScaleManagerError::GetRouterRuntimeParamsError(m),
            ) && m@ == "[Coordinator] No runtime instance to get_model_version..."@,
            RuntimeOperation::GetTrajectoryMemory => e matches CoordinatorError::ScaleManagerError(
                ScaleManagerError::GetRouterRuntimeParamsError(m),
            ) && m@ == "[Coordinator] No runtime instance to get_trajectory_memory..."@,
            RuntimeOperation::ScaleOut => e matches CoordinatorError::ScaleManagerError(
                ScaleManagerError::GetRouterRuntimeParamsError(m),
            ) && m@ == "[Coordinator] No runtime instance to scale_out..."@,
            RuntimeOperation::ScaleIn => e matches CoordinatorError::ScaleManagerError(
                ScaleManagerError::GetRouterRuntimeParamsError(m),
            ) && m@ == "[Coordinator] No runtime instance to scale_in..."@,
            RuntimeOperation::GetConfig => e matches CoordinatorError::StateManagerError(
                StateManagerError::GetConfigError(m),
            ) && m@ == "[Coordinator] No runtime instance to get_config..."@,
            RuntimeOperation::SetConfigPath => e matches CoordinatorError::StateManagerError(
                StateManagerError::SetConfigError(m),
            ) && m@ == "[Coordinator] No runtime instance to set_config_path..."@,
            RuntimeOperation::NewActor => e matches CoordinatorError::StateManagerError(
                StateManagerError::NewActorError(m),
            ) && m@ == "[Coordinator] No runtime instance to new_actor..."@,
            RuntimeOperation::RemoveActor => e matches CoordinatorError::StateManagerError(
                StateManagerError::RemoveActorError(m),
            ) && m@ == "[Coordinator] No runtime instance to remove_actor..."@,
            RuntimeOperation::SetActorId => e matches CoordinatorError::StateManagerError(
                StateManagerError::SetActorIdError(m),
            ) && m@ == "[Coordinator] No runtime instance to set_actor_id..."@,
            RuntimeOperation::RunEnv => e matches CoordinatorError::StateManagerError(
                StateManagerError::StepEnvError(m),
            ) && m@ == "[Coordinator] No runtime instance to step_env..."@,
            RuntimeOperation::SetEnv => e matches CoordinatorError::StateManagerError(
                StateManagerError::SetEnvError(m),
            ) && m@ == "[Coordinator] No runtime instance to set_env..."@,
            RuntimeOperation::GetEnvCount => e matches CoordinatorError::StateManagerError(
                StateManagerError::GetEnvCountError(m),
            ) && m@ == "[Coordinator] No runtime instance to get_env_count..."@,
            RuntimeOperation::IncreaseEnvCount => e matches CoordinatorError::StateManagerError(
                StateManagerError::IncreaseEnvCountError(m),
            ) && m@ == "[Coordinator] No runtime instance to increase_env_count..."@,
            RuntimeOperation::DecreaseEnvCount => e matches CoordinatorError::StateManagerError(
                StateManagerError::DecreaseEnvCountError(m),
            ) && m@ == "[Coordinator] No runtime instance to decrease_env_count..."@,
            RuntimeOperation::RemoveEnv => e matches CoordinatorError::StateManagerError(
                StateManagerError::RemoveEnvError(m),
            ) && m@ == "[Coordinator] No runtime instance to remove_env..."@,
            _ => e is NoRuntimeInstanceError,
        }
    }

    fn missing_runtime(&self) -> (r: CoordinatorError)
        ensures
            self.is_missing_runtime(r),
    {
        match self {
            RuntimeOperation::RequestAction => CoordinatorError::ScaleManagerError(
                ScaleManagerError::GetRouterRuntimeParamsError(
                    "[Coordinator] No runtime instance to request_action...".to_owned(),
                ),
            ),
            RuntimeOperation::FlagLastAction => CoordinatorError::ScaleManagerError(
                ScaleManagerError::GetRouterRuntimeParamsError(
                    "[Coordinator] No runtime instance to flag_last_action...".to_owned(),
                ),
            ),
            RuntimeOperation::GetModelVersion => CoordinatorError::ScaleManagerError(
                ScaleManagerError::GetRouterRuntimeParamsError(
                    "[Coordinator] No runtime instance to get_model_version...".to_owned(),
                ),
            ),
            RuntimeOperation::GetTrajectoryMemory => CoordinatorError::ScaleManagerError(
                ScaleManagerError::GetRouterRuntimeParamsError(
                    "[Coordinator] No runtime instance to get_trajectory_memory...".to_owned(),
                ),
            ),
            RuntimeOperation::ScaleOut => CoordinatorError::ScaleManagerError(
                ScaleManagerError::GetRouterRuntimeParamsError(
                    "[Coordinator] No runtime instance to scale_out...".to_owned(),
                ),
            ),
            RuntimeOperation::ScaleIn => CoordinatorError::ScaleManagerError(
                ScaleManagerError::GetRouterRuntimeParamsError(
                    "[Coordinator] No runtime instance to scale_in...".to_owned(),
                ),
            ),
            RuntimeOperation::GetConfig => CoordinatorError::StateManagerError(
                StateManagerError::GetConfigError(
                    "[Coordinator] No runtime instance to get_config...".to_owned(),
                ),
            ),
            RuntimeOperation::SetConfigPath => CoordinatorError::StateManagerError(
                StateManagerError::SetConfigError(
                    "[Coordinator] No runtime instance to set_config_path...".to_owned(),
                ),
            ),
            RuntimeOperation::NewActor => CoordinatorError::StateManagerError(
                StateManagerError::NewActorError(
                    "[Coordinator] No runtime instance to new_actor...".to_owned(),
                ),
            ),
            RuntimeOperation::RemoveActor => CoordinatorError::StateManagerError(
                StateManagerError::RemoveActorError(
                    "[Coordinator] No runtime instance to remove_actor...".to_owned(),
                ),
            ),
            RuntimeOperation::SetActorId => CoordinatorError::StateManagerError(
                StateManagerError::SetActorIdError(
                    "[Coordinator] No runtime instance to set_actor_id...".to_owned(),
                ),
            ),
            RuntimeOperation::RunEnv => CoordinatorError::StateManagerError(
                StateManagerError::StepEnvError(
                    "[Coordinator] No runtime instance to step_env...".to_owned(),
                ),
            ),
            RuntimeOperation::SetEnv => CoordinatorError::StateManagerError(
                StateManagerError::SetEnvError(
                    "[Coordinator] No runtime instance to set_env...".to_owned(),
                ),
            ),
            RuntimeOperation::GetEnvCount => CoordinatorError::StateManagerError(
                StateManagerError::GetEnvCountError(
                    "[Coordinator] No runtime instance to get_env_count...".to_owned(),
                ),
            ),
            RuntimeOperation::IncreaseEnvCount => CoordinatorError::StateManagerError(
                StateManagerError::IncreaseEnvCountError(
                    "[Coordinator] No runtime instance to increase_env_count...".to_owned(),
                ),
            ),
            RuntimeOperation::DecreaseEnvCount => CoordinatorError::StateManagerError(
                StateManagerError::DecreaseEnvCountError(
                    "[Coordinator] No runtime instance to decrease_env_count...".to_owned(),
                ),
            ),
            RuntimeOperation::RemoveEnv => CoordinatorError::StateManagerError(
                StateManagerError::RemoveEnvError(
                    "[Coordinator] No runtime instance to remove_env...".to_owned(),
                ),
            ),
            _ => CoordinatorError::NoRuntimeInstanceError,
        }
    }
}

/// An address, unless another takes its place.
pub open spec fn replaced_by(a: NetworkParams, given: Option<NetworkParams>) -> NetworkParams {
    match given {
        Some(other) => other,
        None => a,
    }
}

fn replace_by(a: &mut NetworkParams, given: &Option<NetworkParams>)
    ensures
        *final(a) == replaced_by(*old(a), *given),
{
    if let Some(other) = given {
        *a = other.clone();
    }
}

/// The inference addresses that the modes of a client give.
pub open spec fn inference_args(modes: ClientModes) -> Option<InferenceAddressesArgs> {
    match modes.actor_inference_mode {
        ActorInferenceMode::Local(_) => None,
        ActorInferenceMode::Server(params) => params.inference_addresses,
        ActorInferenceMode::ServerOverflow(_, params) => params.inference_addresses,
    }
}

fn inference_args_of(modes: &ClientModes) -> (r: Option<&InferenceAddressesArgs>)
    ensures
        r matches Some(args) ==> inference_args(*modes) == Some(*args),
        r is None ==> inference_args(*modes) is None,
{
    match &modes.actor_inference_mode {
        ActorInferenceMode::Local(_) => None,
        ActorInferenceMode::Server(params) => match &params.inference_addresses {
            Some(args) => Some(args),
            None => None,
        },
        ActorInferenceMode::ServerOverflow(_, params) => match &params.inference_addresses {
            Some(args) => Some(args),
            None => None,
        },
    }
}

/// The training addresses that the modes of a client give.
pub open spec fn training_args(modes: ClientModes) -> Option<TrainingAddressesArgs> {
    match modes.actor_training_data_mode {
        ActorTrainingDataMode::Online(params) => params.training_addresses,
        ActorTrainingDataMode::OnlineWithFiles(params, _) => params.training_addresses,
        ActorTrainingDataMode::OnlineWithMemory(params) => params.training_addresses,
        _ => None,
    }
}

fn training_args_of(modes: &ClientModes) -> (r: Option<&TrainingAddressesArgs>)
    ensures
        r matches Some(args) ==> training_args(*modes) == Some(*args),
        r is None ==> training_args(*modes) is None,
{
    let params = match &modes.actor_training_data_mode {
        ActorTrainingDataMode::Online(params) => params,
        ActorTrainingDataMode::OnlineWithFiles(params, _) => params,
        ActorTrainingDataMode::OnlineWithMemory(params) => params,
        _ => {
            return None;
        },
    };
    match &params.training_addresses {
        Some(args) => Some(args),
        None => None,
    }
}

/// The configured addresses, with those in their place that are given for the transport in use.
/// Addresses given for the other transport do not matter.
pub open spec fn overlaid(
    c: TransportConfigParams,
    t: TransportType,
    inference: Option<InferenceAddressesArgs>,
    training: Option<TrainingAddressesArgs>,
) -> TransportConfigParams {
    let zi = c.zmq_addresses.inference_addresses;
    let zt = c.zmq_addresses.training_addresses;
    TransportConfigParams {
        nats_addresses: NatsTransportAddresses {
            inference_server_address: match (t, inference) {
                (TransportType::NATS, Some(InferenceAddressesArgs::NATS(a))) => replaced_by(
                    c.nats_addresses.inference_server_address,
                    a,
                ),
                _ => c.nats_addresses.inference_server_address,
            },
            training_server_address: match (t, training) {
                (TransportType::NATS, Some(TrainingAddressesArgs::NATS(a))) => replaced_by(
                    c.nats_addresses.training_server_address,
                    a,
                ),
                _ => c.nats_addresses.training_server_address,
            },
        },
        zmq_addresses: ZmqTransportAddresses {
            inference_addresses: match (t, inference) {
                (
                    TransportType::ZMQ,
                    Some(InferenceAddressesArgs::ZMQ(a)),
                ) => ZmqTransportInferenceAddresses {
                    inference_server_address: replaced_by(
                        zi.inference_server_address,
                        a.inference_server_address,
                    ),
                    inference_scaling_server_address: replaced_by(
                        zi.inference_scaling_server_address,
                        a.inference_scaling_server_address,
                    ),
                },
                _ => zi,
            },
            training_addresses: match (t, training) {
                (
                    TransportType::ZMQ,
                    Some(TrainingAddressesArgs::ZMQ(a)),
                ) => ZmqTransportTrainingAddresses {
                    agent_listener_address: replaced_by(
                        zt.agent_listener_address,
                        a.agent_listener_address,
                    ),
                    model_server_address: replaced_by(
                        zt.model_server_address,
                        a.model_server_address,
                    ),
                    trajectory_server_address: replaced_by(
                        zt.trajectory_server_address,
                        a.trajectory_server_address,
                    ),
                    training_scaling_server_address: replaced_by(
                        zt.training_scaling_server_address,
                        a.training_scaling_server_address,
                    ),
                },
                _ => zt,
            },
        },
        ..c
    }
}

/// Puts the addresses that the modes of a client give for the transport in use in place of the
/// configured ones.
pub fn apply_address_args(
    config: &mut TransportConfigParams,
    transport_type: TransportType,
    modes: &ClientModes,
)
    ensures
        *final(config) == overlaid(
            *old(config),
            transport_type,
            inference_args(*modes),
            training_args(*modes),
        ),
{
    match (transport_type, inference_args_of(modes)) {
        (TransportType::NATS, Some(InferenceAddressesArgs::NATS(a))) => {
            replace_by(&mut config.nats_addresses.inference_server_address, a);
        },
        (TransportType::ZMQ, Some(InferenceAddressesArgs::ZMQ(a))) => {
            let kept = &mut config.zmq_addresses.inference_addresses;
            replace_by(&mut kept.inference_server_address, &a.inference_server_address);
            replace_by(
                &mut kept.inference_scaling_server_address,
                &a.inference_scaling_server_address,
            );
        },
        _ => {},
    }
    match (transport_type, training_args_of(modes)) {
        (TransportType::NATS, Some(TrainingAddressesArgs::NATS(a))) => {
            replace_by(&mut config.nats_addresses.training_server_address, a);
        },
        (TransportType::ZMQ, Some(TrainingAddressesArgs::ZMQ(a))) => {
            let kept = &mut config.zmq_addresses.training_addresses;
            replace_by(&mut kept.agent_listener_address, &a.agent_listener_address);
            replace_by(&mut kept.model_server_address, &a.model_server_address);
            replace_by(&mut kept.trajectory_server_address, &a.trajectory_server_address);
            replace_by(
                &mut kept.training_scaling_server_address,
                &a.training_scaling_server_address,
            );
        },
        _ => {},
    }
}

/// Where no addresses are given for the transport in use, the configured ones stay.
pub proof fn law_configured_addresses_stay(c: TransportConfigParams, t: TransportType, modes: ClientModes)
    requires
        match inference_args(modes) {
            None => true,
            Some(InferenceAddressesArgs::NATS(a)) => t == TransportType::ZMQ || a is None,
            Some(InferenceAddressesArgs::ZMQ(a)) => t == TransportType::NATS || (
            a.inference_server_address is None && a.inference_scaling_server_address is None),
        },
        match training_args(modes) {
            None => true,
            Some(TrainingAddressesArgs::NATS(a)) => t == TransportType::ZMQ || a is None,
            Some(TrainingAddressesArgs::ZMQ(a)) => t == TransportType::NATS || (
            a.agent_listener_address is None && a.model_server_address is None
                && a.trajectory_server_address is None && a.training_scaling_server_address is None),
        },
    ensures
        overlaid(c, t, inference_args(modes), training_args(modes)) == c,
{
}

/// Addresses for one transport leave those of the other, and everything else, as configured.
pub proof fn law_other_transport_is_untouched(
    c: TransportConfigParams,
    t: TransportType,
    inference: Option<InferenceAddressesArgs>,
    training: Option<TrainingAddressesArgs>,
)
    ensures
        t == TransportType::NATS ==> overlaid(c, t, inference, training).zmq_addresses
            == c.zmq_addresses,
        t == TransportType::ZMQ ==> overlaid(c, t, inference, training).nats_addresses
            == c.nats_addresses,
        overlaid(c, t, inference, training).max_traj_length == c.max_traj_length,
        overlaid(c, t, inference, training).local_model_module == c.local_model_module,
{
}

/// Each address that the modes of a client give for the transport in use takes the place of the
/// configured one of the same server, and the others of that transport stay.
pub proof fn law_given_addresses_take_their_place(
    c: TransportConfigParams,
    t: TransportType,
    modes: ClientModes,
    inference: InferenceServerParams,
    training: TrainingServerParams,
)
    requires
        modes.actor_inference_mode == ActorInferenceMode::Server(inference) || (
        modes.actor_inference_mode matches ActorInferenceMode::ServerOverflow(_, p) && p
            == inference),
        modes.actor_training_data_mode == ActorTrainingDataMode::Online(training)
            || modes.actor_training_data_mode == ActorTrainingDataMode::OnlineWithMemory(training)
            || (modes.actor_training_data_mode matches ActorTrainingDataMode::OnlineWithFiles(p, _)
            && p == training),
    ensures
        ({
            let r = overlaid(c, t, inference_args(modes), training_args(modes));
            let zi = r.zmq_addresses.inference_addresses;
            let zt = r.zmq_addresses.training_addresses;
            let ci = c.zmq_addresses.inference_addresses;
            let ct = c.zmq_addresses.training_addresses;
            &&& (t == TransportType::NATS && inference.inference_addresses matches Some(
                InferenceAddressesArgs::NATS(Some(a)),
            )) ==> r.nats_addresses.inference_server_address
                == inference.inference_addresses->0->NATS_0->0
            &&& (t == TransportType::NATS && training.training_addresses matches Some(
                TrainingAddressesArgs::NATS(Some(a)),
            )) ==> r.nats_addresses.training_server_address
                == training.training_addresses->0->NATS_0->0
            &&& (t == TransportType::ZMQ && inference.inference_addresses matches Some(
                InferenceAddressesArgs::ZMQ(_),
            )) ==> {
                let a = inference.inference_addresses->0->ZMQ_0;
                &&& zi.inference_server_address == (match a.inference_server_address {
                    Some(given) => given,
                    None => ci.inference_server_address,
                })
                &&& zi.inference_scaling_server_address == (match a.inference_scaling_server_address {
                    Some(given) => given,
                    None => ci.inference_scaling_server_address,
                })
            }
            &&& (t == TransportType::ZMQ && training.training_addresses matches Some(
                TrainingAddressesArgs::ZMQ(_),
            )) ==> {
                let a = training.training_addresses->0->ZMQ_0;
                &&& zt.agent_listener_address == (match a.agent_listener_address {
                    Some(given) => given,
                    None => ct.agent_listener_address,
                })
                &&& zt.model_server_address == (match a.model_server_address {
                    Some(given) => given,
                    None => ct.model_server_address,
                })
                &&& zt.trajectory_server_address == (match a.trajectory_server_address {
                    Some(given) => given,
                    None => ct.trajectory_server_address,
                })
                &&& zt.training_scaling_server_address == (match a.training_scaling_server_address {
                    Some(given) => given,
                    None => ct.training_scaling_server_address,
                })
            }
        }),
{
}

/// A client that computes locally gives no inference addresses, and one that is not online gives no
/// training addresses.
pub proof fn law_no_addresses_without_a_server(modes: ClientModes)
    ensures
        modes.actor_inference_mode is Local ==> inference_args(modes) is None,
        modes.actor_training_data_mode is Disabled || modes.actor_training_data_mode is OfflineWithFiles
            || modes.actor_training_data_mode is OfflineWithMemory ==> training_args(modes) is None,
{
}

/// The trajectory output that the modes of a client give.
pub open spec fn trajectory_files(modes: ClientModes) -> Option<LocalTrajectoryFileParams> {
    match modes.actor_training_data_mode {
        ActorTrainingDataMode::OfflineWithFiles(files) => files,
        ActorTrainingDataMode::OnlineWithFiles(_, files) => files,
        _ => None,
    }
}

/// The trajectory output that the modes of a client give.
pub fn trajectory_file_params(modes: &ClientModes) -> (r: Option<&LocalTrajectoryFileParams>)
    ensures
        r matches Some(files) ==> trajectory_files(*modes) == Some(*files),
        r is None ==> trajectory_files(*modes) is None,
{
    let files = match &modes.actor_training_data_mode {
        ActorTrainingDataMode::OfflineWithFiles(files) => files,
        ActorTrainingDataMode::OnlineWithFiles(_, files) => files,
        _ => {
            return None;
        },
    };
    match files {
        Some(params) => Some(params),
        None => None,
    }
}

/// The output that is given with a mode that writes files is the one in force, whether or not the
/// client is online; other modes give none.
pub proof fn law_modes_with_files_give_the_output(
    modes: ClientModes,
    files: Option<LocalTrajectoryFileParams>,
)
    ensures
        modes.actor_training_data_mode == ActorTrainingDataMode::OfflineWithFiles(files)
            ==> trajectory_files(modes) == files,
        (modes.actor_training_data_mode matches ActorTrainingDataMode::OnlineWithFiles(_, f)
            && f == files) ==> trajectory_files(modes) == files,
        modes.actor_training_data_mode is Disabled ==> trajectory_files(modes) is None,
        modes.actor_training_data_mode is OfflineWithMemory ==> trajectory_files(modes) is None,
        modes.actor_training_data_mode is Online ==> trajectory_files(modes) is None,
        modes.actor_training_data_mode is OnlineWithMemory ==> trajectory_files(modes) is None,
{
}

/// Which ways to servers a runtime is given.
#[derive(Clone, Copy, Debug, PartialEq, Eq, Structural)]
pub struct DispatcherPlan {
    pub inference: bool,
    pub scaling: bool,
    pub training: bool,
}

/// Which ways to servers a runtime is given under these modes: to an inference server where one
/// takes part in inference; to a training server unless training data is not wanted or only written
/// to files; for scaling where either is given.
pub open spec fn spec_dispatchers(modes: ClientModes) -> DispatcherPlan {
    let inference = modes.actor_inference_mode.spec_uses_server();
    let training = !(modes.actor_training_data_mode is Disabled
        || modes.actor_training_data_mode is OfflineWithFiles);
    DispatcherPlan { inference, scaling: inference || training, training }
}

/// Decides which ways to servers a runtime is given.
pub fn dispatchers(modes: &ClientModes) -> (r: DispatcherPlan)
    ensures
        r == spec_dispatchers(*modes),
        modes.actor_training_data_mode.spec_is_online() ==> r.training && r.scaling,
        modes.actor_inference_mode.spec_uses_server() ==> r.inference && r.scaling,
{
    let inference = modes.actor_inference_mode.uses_server();
    let training = match modes.actor_training_data_mode {
        ActorTrainingDataMode::Disabled => false,
        ActorTrainingDataMode::OfflineWithFiles(_) => false,
        _ => true,
    };
    DispatcherPlan { inference, scaling: inference || training, training }
}

/// A client that sends its trajectories to a training server has a way to it, and one that uses an
/// inference server has a way to that; with either there is a way for scaling. A client that computes
/// locally has no way to an inference server, and one that records nothing, or only files, has none
/// to a training server.
pub proof fn law_modes_decide_the_ways(modes: ClientModes)
    ensures
        ({
            let r = spec_dispatchers(modes);
            let inference = modes.actor_inference_mode;
            let training = modes.actor_training_data_mode;
            &&& training.spec_is_online() ==> r.training && r.scaling
            &&& training is Online ==> r.training && r.scaling
            &&& training is OnlineWithFiles ==> r.training && r.scaling
            &&& training is OnlineWithMemory ==> r.training && r.scaling
            &&& training is OfflineWithMemory ==> r.training && r.scaling
            &&& training is Disabled ==> !r.training
            &&& training is OfflineWithFiles ==> !r.training
            &&& inference is Server ==> r.inference && r.scaling
            &&& inference is ServerOverflow ==> r.inference && r.scaling
            &&& inference is Local ==> !r.inference
            &&& inference is Local && (training is Disabled || training is OfflineWithFiles)
                ==> !r.scaling
        }),
{
}

/// Whether the parts of a runtime are told the addresses of servers under these modes.
pub fn shares_addresses(modes: &ClientModes) -> (r: bool)
    ensures
        r == (modes.actor_inference_mode.spec_uses_server()
            || modes.actor_training_data_mode.spec_is_online()),
{
    modes.actor_inference_mode.uses_server() || modes.actor_training_data_mode.is_online()
}

/// A runtime that is about to be started.
pub struct StartPlan {
    pub client_namespace: String,
    pub lifecycle: LifecycleManager,
    pub dispatchers: DispatcherPlan,
    pub shares_addresses: bool,
}

/// What a runtime works with.
pub struct CoordinatorParams {
    pub client_namespace: String,
    pub lifecycle: LifecycleManager,
    pub shared_state: StateManager,
    /// The namespaces of the routers, once there are any to count.
    pub routers: Option<Vec<String>>,
    /// The memory that trajectories are kept in, if they are.
    pub trajectory_memory: Option<u64>,
    pub has_scaling_dispatcher: bool,
}

/// Coordinates a client runtime.
pub struct ClientCoordinator {
    pub transport_type: TransportType,
    pub client_modes: ClientModes,
    pub runtime_params: Option<CoordinatorParams>,
}

/// The steps in which a runtime is shut down.
#[derive(Clone, Copy, Debug, PartialEq, Eq, Structural)]
pub enum ShutdownStep {
    /// Every actor is told to flush its trajectory and to end.
    ShutdownActors,
    SignalServers,
    ShutdownTransport,
    /// All parts of the runtime are told to end.
    SignalRuntime,
    ClearRouters,
    /// The namespace leaves the registry and the actors are forgotten.
    Forget,
}

/// The steps in their order. The transport is shut down only where there is one.
pub open spec fn shutdown_steps(has_scaling_dispatcher: bool) -> Seq<ShutdownStep> {
    if has_scaling_dispatcher {
        seq![
            ShutdownStep::ShutdownActors,
            ShutdownStep::SignalServers,
            ShutdownStep::ShutdownTransport,
            ShutdownStep::SignalRuntime,
            ShutdownStep::ClearRouters,
            ShutdownStep::Forget,
        ]
    } else {
        seq![
            ShutdownStep::ShutdownActors,
            ShutdownStep::SignalServers,
            ShutdownStep::SignalRuntime,
            ShutdownStep::ClearRouters,
            ShutdownStep::Forget,
        ]
    }
}

/// The place of a step among others.
pub open spec fn comes_before(steps: Seq<ShutdownStep>, a: ShutdownStep, b: ShutdownStep) -> bool {
    forall|i: int, j: int|
        0 <= i < steps.len() && 0 <= j < steps.len() && #[trigger] steps[i] == a
            && #[trigger] steps[j] == b ==> i < j
}

/// With or without a way for scaling, the actors are shut down before anything else and the client
/// is forgotten after everything else, no step is taken twice and none is left out. Servers are told
/// while the transport is still there, and the parts of the runtime before the routers are cleared.
pub proof fn law_actors_end_first_and_the_client_is_forgotten_last(has_scaling_dispatcher: bool)
    ensures
        ({
            let steps = shutdown_steps(has_scaling_dispatcher);
            &&& steps.len() > 0
            &&& steps[0] == ShutdownStep::ShutdownActors
            &&& steps.last() == ShutdownStep::Forget
            &&& steps.no_duplicates()
            &&& steps.contains(ShutdownStep::SignalServers)
            &&& steps.contains(ShutdownStep::SignalRuntime)
            &&& steps.contains(ShutdownStep::ClearRouters)
            &&& steps.contains(ShutdownStep::ShutdownTransport) <==> has_scaling_dispatcher
            &&& comes_before(steps, ShutdownStep::SignalServers, ShutdownStep::ShutdownTransport)
            &&& comes_before(steps, ShutdownStep::SignalServers, ShutdownStep::SignalRuntime)
            &&& comes_before(steps, ShutdownStep::ShutdownTransport, ShutdownStep::SignalRuntime)
            &&& comes_before(steps, ShutdownStep::SignalRuntime, ShutdownStep::ClearRouters)
        }),
{
    let steps = shutdown_steps(has_scaling_dispatcher);
    assert(steps[1] == ShutdownStep::SignalServers);
    if has_scaling_dispatcher {
        assert(steps[2] == ShutdownStep::ShutdownTransport);
        assert(steps[3] == ShutdownStep::SignalRuntime);
        assert(steps[4] == ShutdownStep::ClearRouters);
    } else {
        assert(steps[2] == ShutdownStep::SignalRuntime);
        assert(steps[3] == ShutdownStep::ClearRouters);
    }
}

/// An actor that was added, and what servers are told of it.
pub struct AddedActor {
    pub actor_id: u128,
    pub replaced_handle: Option<u64>,
    pub needs_handshake: bool,
    /// The entry to announce, if it is to be announced.
    pub announce: Option<IdEntry>,
    /// Whether the algorithm is to be set up for the actor too.
    pub init_algorithm: bool,
}

/// What an actor answers to the question for its model's version.
pub enum VersionReply {
    Version(i64),
    NotSent(String),
    NotAnswered(String),
}

/// The version that follows one that an actor has told: the first is nought.
pub open spec fn version_after(current: i64) -> int {
    if current < 0 {
        0
    } else {
        current + 1
    }
}

/// The router that the next actor is assigned to.
pub open spec fn is_assigned(
    routers: Option<Seq<String>>,
    actors: nat,
    r: Result<String, CoordinatorError>,
) -> bool {
    match routers {
        None => r matches Err(
            CoordinatorError::ScaleManagerError(ScaleManagerError::GetRouterRuntimeParamsError(m)),
        ) && m@ == "[Coordinator] No routers available for actor assignment"@,
        Some(names) => if names.len() == 0 {
            r matches Err(
                CoordinatorError::ScaleManagerError(
                    ScaleManagerError::GetRouterRuntimeParamsError(m),
                ),
            ) && m@ == "[Coordinator] No routers available"@
        } else {
            r matches Ok(name) && name@ == names[actors as int % names.len() as int]@
        },
    }
}

/// Assigns the next actor to a router, each in turn.
pub fn assigned_router(routers: &Option<Vec<String>>, actors: usize) -> (r: Result<
    String,
    CoordinatorError,
>)
    ensures
        is_assigned(
            match *routers {
                Some(names) => Some(names@),
                None => None,
            },
            actors as nat,
            r,
        ),
{
    match routers {
        None => Err(
            CoordinatorError::ScaleManagerError(
                ScaleManagerError::GetRouterRuntimeParamsError(
                    "[Coordinator] No routers available for actor assignment".to_owned(),
                ),
            ),
        ),
        Some(names) => {
            if names.len() == 0 {
                return Err(
                    CoordinatorError::ScaleManagerError(
                        ScaleManagerError::GetRouterRuntimeParamsError(
                            "[Coordinator] No routers available".to_owned(),
                        ),
                    ),
                );
            }
            Ok(names[actors % names.len()].clone())
        },
    }
}

/// The path of the configuration: the one given, or else the default one.
pub fn chosen_config_path(given: Option<String>, default_path: Option<String>) -> (r: Result<
    String,
    CoordinatorError,
>)
    ensures
        match (given, default_path) {
            (Some(path), _) => r == Ok::<String, CoordinatorError>(path),
            (None, Some(path)) => r == Ok::<String, CoordinatorError>(path),
            (None, None) => r matches Err(
                CoordinatorError::ConfigError(ClientConfigError::NotFound(m)),
            ) && m@
                == "[Coordinator] No config path provided and default config path not found..."@,
        },
{
    match given {
        Some(path) => Ok(path),
        None => match default_path {
            Some(path) => Ok(path),
            None => Err(
                CoordinatorError::ConfigError(
                    ClientConfigError::NotFound(
                        "[Coordinator] No config path provided and default config path not found...".to_owned(),
                    ),
                ),
            ),
        },
    }
}

/// The namespace of a client that was given an identifier.
pub open spec fn namespace_of(id: u128) -> Seq<char> {
    CLIENT_NAMESPACE_PREFIX@ + "-"@ + uuid_chars(id)
}

/// The namespace of a client that was given an identifier.
pub fn client_namespace(id: u128) -> (r: String)
    ensures
        r@ == namespace_of(id),
{
    let mut r = CLIENT_NAMESPACE_PREFIX.to_owned();
    let id_text = uuid_text(id);
    r.append("-");
    r.append(id_text.as_str());
    r
}

/// Opens the namespace of a client that was given an identifier; what was registered under it
/// before is cleared. The registry gives no answer to either, so what it holds afterwards is not
/// stated.
pub fn open_namespace(id: u128) -> (r: String)
    ensures
        r@ == namespace_of(id),
{
    let r = client_namespace(id);
    clear_namespace(r.as_str());
    reserve_namespace(r.as_str());
    r
}

/// Where the identifiers of a client's actors are reserved.
pub fn actor_slot(client_namespace: &str) -> (r: IdSlot)
    ensures
        r.reads(client_namespace@, ACTOR_CONTEXT@, 117, 100),
{
    IdSlot {
        namespace: client_namespace.to_owned(),
        context: ACTOR_CONTEXT.to_owned(),
        base: 117,
        max_retries: 100,
    }
}

/// Whether the actors that are registered for a client are reported, or that there are none.
pub open spec fn reports_actors(
    client_namespace: Seq<char>,
    r: Result<Vec<IdEntry>, CoordinatorError>,
) -> bool {
    match r {
        Ok(entries) => lists_context(entries@, client_namespace, ACTOR_CONTEXT@),
        Err(e) => e matches CoordinatorError::UuidPoolError(why) && pool_error_chars(why)
            == unknown_context(client_namespace, ACTOR_CONTEXT@),
    }
}

/// The entries that the registry answered with, or its refusal.
pub fn entries_answered(answer: Result<Vec<IdEntry>, UuidPoolError>) -> (r: Result<
    Vec<IdEntry>,
    CoordinatorError,
>)
    ensures
        match answer {
            Ok(entries) => r == Ok::<Vec<IdEntry>, CoordinatorError>(entries),
            Err(e) => r == Err::<Vec<IdEntry>, CoordinatorError>(CoordinatorError::UuidPoolError(e)),
        },
{
    match answer {
        Ok(entries) => Ok(entries),
        Err(e) => Err(CoordinatorError::UuidPoolError(e)),
    }
}

fn actor_entries(client_namespace: &str) -> (r: Result<Vec<IdEntry>, CoordinatorError>)
    ensures
        reports_actors(client_namespace@, r),
{
    entries_answered(context_entries(client_namespace, ACTOR_CONTEXT))
}

/// What is reported of the removal of an actor: the task to abort, and the identifiers of those that
/// remain where servers are to know them.
pub open spec fn reports_removal(
    removed: RemovedActor,
    send_ids: bool,
    client_namespace: Seq<char>,
    r: (Option<u64>, Result<Option<Vec<IdEntry>>, CoordinatorError>),
) -> bool {
    &&& r.0 == removed.handle
    &&& match removed.outcome {
        Err(e) => r.1 == Err::<Option<Vec<IdEntry>>, CoordinatorError>(
            CoordinatorError::StateManagerError(e),
        ),
        Ok(_) => if !send_ids {
            r.1 == Ok::<Option<Vec<IdEntry>>, CoordinatorError>(None)
        } else {
            match r.1 {
                Ok(announce) => announce matches Some(entries) && reports_actors(
                    client_namespace,
                    Ok(entries),
                ),
                Err(e) => reports_actors(client_namespace, Err(e)),
            }
        },
    }
}

/// Reports the removal of an actor. Which identifiers remain depends on the registry.
pub fn after_removal(removed: RemovedActor, send_ids: bool, client_namespace: &str) -> (r: (
    Option<u64>,
    Result<Option<Vec<IdEntry>>, CoordinatorError>,
))
    ensures
        reports_removal(removed, send_ids, client_namespace@, r),
{
    if let Err(e) = removed.outcome {
        return (removed.handle, Err(CoordinatorError::StateManagerError(e)));
    }
    if !send_ids {
        return (removed.handle, Ok(None));
    }
    match actor_entries(client_namespace) {
        Ok(entries) => (removed.handle, Ok(Some(entries))),
        Err(e) => (removed.handle, Err(e)),
    }
}

/// The question for the version of an actor's model.
pub fn version_request(actor_id: u128, reply_to: u64) -> (r: RoutedMessage)
    ensures
        r == (RoutedMessage {
            actor_id,
            protocol: RoutingProtocol::ModelVersion,
            payload: RoutedPayload::ModelVersion { reply_to },
        }),
{
    RoutedMessage {
        actor_id,
        protocol: RoutingProtocol::ModelVersion,
        payload: RoutedPayload::ModelVersion { reply_to },
    }
}

/// What is made of the answers to the question for versions, in the order in which actors were
/// asked: the first that fails ends it.
pub open spec fn versions_mean(
    ids: Seq<u128>,
    replies: Seq<VersionReply>,
    r: Result<Seq<(u128, i64)>, CoordinatorError>,
) -> bool {
    match r {
        Ok(versions) => {
            &&& versions.len() == replies.len()
            &&& forall|i: int|
                0 <= i < replies.len() ==> #[trigger] replies[i] == VersionReply::Version(
                    versions[i].1,
                ) && versions[i].0 == ids[i]
        },
        Err(e) => exists|k: int| #[trigger] first_unanswered(replies, k, e),
    }
}

/// Whether the answer at `k` is the first that fails, and the error reports it.
pub open spec fn first_unanswered(replies: Seq<VersionReply>, k: int, e: CoordinatorError) -> bool {
    &&& 0 <= k < replies.len()
    &&& forall|i: int| 0 <= i < k ==> #[trigger] replies[i] is Version
    &&& match replies[k] {
        VersionReply::Version(_) => false,
        VersionReply::NotSent(why) => e == CoordinatorError::ScaleManagerError(
            ScaleManagerError::SendModelVersionMessageError(why),
        ),
        VersionReply::NotAnswered(why) => e == CoordinatorError::ScaleManagerError(
            ScaleManagerError::ReceiveModelVersionResponseError(why),
        ),
    }
}

/// Pairs the versions that were told with the actors that told them. Actors are asked in turn, and
/// none after one that fails.
pub fn request_model_versions(ids: &Vec<u128>, replies: Vec<VersionReply>) -> (r: Result<
    Vec<(u128, i64)>,
    CoordinatorError,
>)
    requires
        replies@.len() <= ids@.len(),
        replies@.len() < ids@.len() ==> replies@.len() > 0 && !(replies@.last() is Version),
    ensures
        r is Ok ==> replies@.len() == ids@.len(),
        versions_mean(
            ids@,
            replies@,
            match r {
                Ok(versions) => Ok(versions@),
                Err(e) => Err(e),
            },
        ),
{
    let ghost all = replies@;
    let mut left = replies;
    let mut versions: Vec<(u128, i64)> = Vec::new();
    let n: usize = left.len();
    let mut i: usize = 0;
    proof {
        assert(all.skip(0) =~= all);
    }
    while i < n
        invariant
            i <= n,
            n == all.len(),
            n <= ids@.len(),
            all == replies@,
            left@ == all.skip(i as int),
            versions@.len() == i,
            forall|k: int|
                0 <= k < i ==> #[trigger] all[k] == VersionReply::Version(versions@[k].1)
                    && versions@[k].0 == ids@[k],
        decreases n - i,
    {
        let reply = left.remove(0);
        proof {
            assert(reply == all[i as int]);
            assert(all.skip(i as int).remove(0) =~= all.skip(i as int + 1));
        }
        match reply {
            VersionReply::Version(version) => {
                versions.push((ids[i], version));
            },
            VersionReply::NotSent(why) => {
                let e = CoordinatorError::ScaleManagerError(
                    ScaleManagerError::SendModelVersionMessageError(why),
                );
                proof {
                    assert(first_unanswered(all, i as int, e));
                }
                return Err(e);
            },
            VersionReply::NotAnswered(why) => {
                let e = CoordinatorError::ScaleManagerError(
                    ScaleManagerError::ReceiveModelVersionResponseError(why),
                );
                proof {
                    assert(first_unanswered(all, i as int, e));
                }
                return Err(e);
            },
        }
        i = i + 1;
    }
    Ok(versions)
}

/// The messages that bring a model to the actors that told their versions, each in the version that
/// follows its own.
pub fn dispatch_model_updates(versions: &Vec<(u128, i64)>, model_bytes: &Vec<u8>) -> (r: Vec<
    RoutedMessage,
>)
    requires
        forall|i: int| 0 <= i < versions@.len() ==> (#[trigger] versions@[i]).1 < i64::MAX,
    ensures
        r@.len() == versions@.len(),
        forall|i: int|
            0 <= i < r@.len() ==> (#[trigger] r@[i]).is_model_update(
                versions@[i].0,
                model_bytes@,
                version_after(versions@[i].1),
            ),
{
    let mut messages: Vec<RoutedMessage> = Vec::new();
    let mut i: usize = 0;
    while i < versions.len()
        invariant
            i <= versions@.len(),
            forall|k: int| 0 <= k < versions@.len() ==> (#[trigger] versions@[k]).1 < i64::MAX,
            messages@.len() == i,
            forall|k: int|
                0 <= k < i ==> (#[trigger] messages@[k]).is_model_update(
                    versions@[k].0,
                    model_bytes@,
                    version_after(versions@[k].1),
                ),
        decreases versions@.len() - i,
    {
        let current: i64 = versions[i].1;
        let version: i64 = if current < 0 {
            0
        } else {
            current + 1
        };
        let bytes = model_bytes.clone();
        proof {
            assert(bytes@ =~= model_bytes@);
        }
        messages.push(
            RoutedMessage {
                actor_id: versions[i].0,
                protocol: RoutingProtocol::ModelUpdate,
                payload: RoutedPayload::ModelUpdate { model_bytes: bytes, version },
            },
        );
        i = i + 1;
    }
    messages
}

/// Reports why a model was not brought to an actor.
pub fn model_update_sent(outcome: Result<(), String>) -> (r: Result<(), CoordinatorError>)
    ensures
        match outcome {
            Ok(_) => r is Ok,
            Err(why) => r == Err::<(), CoordinatorError>(
                CoordinatorError::ScaleManagerError(
                    ScaleManagerError::SendModelUpdateMessageError(why),
                ),
            ),
        },
{
    match outcome {
        Ok(_) => Ok(()),
        Err(why) => Err(
            CoordinatorError::ScaleManagerError(ScaleManagerError::SendModelUpdateMessageError(why)),
        ),
    }
}

/// A model is always brought in a version that is newer than the one told, and never in a negative
/// one.
pub proof fn law_versions_grow(current: i64)
    ensures
        version_after(current) >= 0,
        version_after(current) > current,
{
}

/// No version that could follow is left out: the next one is the least that is newer and not
/// negative.
pub proof fn law_no_version_is_skipped(current: i64, other: int)
    requires
        other >= 0,
        other > current,
    ensures
        version_after(current) <= other,
{
}

/// Versions are told if and only if every actor told its own, and each is paired with the actor that
/// told it.
pub proof fn law_versions_are_told_by_all_or_not_at_all(
    ids: Seq<u128>,
    replies: Seq<VersionReply>,
    r: Result<Seq<(u128, i64)>, CoordinatorError>,
)
    requires
        versions_mean(ids, replies, r),
    ensures
        r is Ok <==> forall|i: int| 0 <= i < replies.len() ==> #[trigger] replies[i] is Version,
        r matches Ok(versions) ==> forall|i: int|
            0 <= i < replies.len() ==> (#[trigger] versions[i]).0 == ids[i] && replies[i]
                == VersionReply::Version(versions[i].1),
{
    if let Ok(versions) = r {
        assert forall|i: int| 0 <= i < replies.len() implies #[trigger] replies[i] is Version && (
        versions[i]).0 == ids[i] && replies[i] == VersionReply::Version(versions[i].1) by {}
    }
}

/// Actions are handed out if and only if every actor answered with one, and each with the actor that
/// it is from.
pub proof fn law_actions_come_from_all_or_not_at_all(
    replies: Seq<(u128, ActionReply)>,
    r: Result<Seq<(u128, u64)>, CoordinatorError>,
)
    requires
        actions_mean(replies, r),
    ensures
        r is Ok <==> forall|i: int| 0 <= i < replies.len() ==> (#[trigger] replies[i]).1 is Action,
        r matches Ok(actions) ==> forall|i: int|
            0 <= i < replies.len() ==> (#[trigger] actions[i]).0 == replies[i].0 && replies[i].1
                == ActionReply::Action(actions[i].1),
{
    if let Ok(actions) = r {
        assert forall|i: int| 0 <= i < replies.len() implies (#[trigger] replies[i]).1 is Action
            && actions[i].0 == replies[i].0 && replies[i].1 == ActionReply::Action(actions[i].1) by {}
    }
}

/// An action is asked of exactly those actors on a list that are assigned to a router.
pub proof fn law_routed_actors_are_asked(ids: Seq<u128>, routers: Map<u128, Seq<char>>, id: u128)
    ensures
        routed(ids, routers).contains(id) <==> ids.contains(id) && routers.contains_key(id),
        routed(ids, routers).len() <= ids.len(),
        (forall|i: int| 0 <= i < ids.len() ==> routers.contains_key(#[trigger] ids[i])) ==> routed(
            ids,
            routers,
        ) == ids,
    decreases ids.len(),
{
    reveal(Seq::filter);
    if ids.len() > 0 {
        let rest = ids.drop_last();
        law_routed_actors_are_asked(rest, routers, id);
        let last = ids.last();
        let kept = routed(rest, routers);
        let all = routed(ids, routers);
        assert(all == if routers.contains_key(last) { kept.push(last) } else { kept });
        if kept.contains(id) {
            let i = choose|i: int| 0 <= i < kept.len() && kept[i] == id;
            assert(all[i] == id);
        }
        if rest.contains(id) {
            let i = choose|i: int| 0 <= i < rest.len() && rest[i] == id;
            assert(ids[i] == id);
        }
        if all.contains(id) {
            let i = choose|i: int| 0 <= i < all.len() && all[i] == id;
            if i < kept.len() {
                assert(kept[i] == id);
            } else {
                assert(ids[ids.len() - 1] == id);
            }
        }
        if ids.contains(id) && routers.contains_key(id) {
            let i = choose|i: int| 0 <= i < ids.len() && ids[i] == id;
            if i < rest.len() {
                assert(rest[i] == id);
            } else {
                assert(all[all.len() - 1] == id);
            }
        }
        if forall|i: int| 0 <= i < ids.len() ==> routers.contains_key(#[trigger] ids[i]) {
            assert forall|i: int| 0 <= i < rest.len() implies routers.contains_key(
                #[trigger] rest[i],
            ) by {
                assert(rest[i] == ids[i]);
            }
            assert(ids[ids.len() - 1] == last);
            assert(all =~= ids);
        }
    } else {
        assert(routed(ids, routers) =~= ids);
    }
}

/// A model is written next to the local model where that lies in a directory, and else among
/// temporary files.
pub proof fn law_directories_are_chosen(parent: Option<String>, temporary: String)
    ensures
        parent is None ==> chosen_directory(parent, temporary) == temporary,
        parent is Some && parent->0@.len() == 0 ==> chosen_directory(parent, temporary) == temporary,
        parent is Some && parent->0@.len() > 0 ==> chosen_directory(parent, temporary) == parent->0,
        temporary@.len() > 0 ==> chosen_directory(parent, temporary)@.len() > 0,
{
}

/// Where there are routers an actor always gets one. As many actors in a row as there are routers get
/// each a router of their own, in the order of the routers, and then it begins anew.
pub proof fn law_routers_are_used_in_turn(
    names: Seq<String>,
    actors: nat,
    first: Result<String, CoordinatorError>,
    later: Result<String, CoordinatorError>,
)
    requires
        is_assigned(Some(names), actors, first),
        is_assigned(Some(names), actors + names.len(), later),
    ensures
        first is Ok <==> names.len() > 0,
        names.len() > 0 ==> later is Ok && later->Ok_0@ == first->Ok_0@,
        actors < names.len() ==> first->Ok_0@ == names[actors as int]@,
{
    if names.len() > 0 {
        let n = names.len() as int;
        vstd::arithmetic::div_mod::lemma_mod_add_multiples_vanish(actors as int, n);
        if actors < n {
            vstd::arithmetic::div_mod::lemma_small_mod(actors, n as nat);
        }
    }
}

/// The namespaces of clients begin alike and tell the clients apart.
pub proof fn law_clients_have_namespaces_of_their_own(a: u128, b: u128)
    ensures
        a != b ==> namespace_of(a) != namespace_of(b),
        "client-"@.is_prefix_of(namespace_of(a)),
        namespace_of(a) == "client-"@ + uuid_chars(a),
{
    reveal_strlit("client");
    reveal_strlit("-");
    reveal_strlit("client-");
    assert("client"@ + "-"@ =~= "client-"@);
    assert(namespace_of(a) =~= "client-"@ + uuid_chars(a));
    assert(namespace_of(b) =~= "client-"@ + uuid_chars(b));
    if namespace_of(a) == namespace_of(b) {
        assert(uuid_chars(a) =~= namespace_of(a).skip(7));
        assert(uuid_chars(b) =~= namespace_of(b).skip(7));
        lemma_text_is_unique(a, b);
    }
}

/// The actors that a list names, if there is one.
pub open spec fn listed(actor_ids: Option<&Vec<u128>>) -> Option<Seq<u128>> {
    match actor_ids {
        Some(ids) => Some(ids@),
        None => None,
    }
}

/// The actors that a model is brought to: those that stand for the ones listed, or for all.
pub open spec fn are_targets(state: StateManager, asked: Option<Seq<u128>>, targets: Seq<u128>) -> bool {
    exists|sorted: Seq<u128>|
        #![trigger representatives(state.shares(), state.devices(), sorted, sorted.len() as int)]
        lists_wanted(state.handles(), asked, sorted) && targets == representatives(
            state.shares(),
            state.devices(),
            sorted,
            sorted.len() as int,
        )
}

/// A model that is to be brought to actors.
pub struct ModelUpdatePlan {
    pub targets: Vec<u128>,
    /// Where the model is written before.
    pub directory: String,
}

/// Where a model is written before it is brought to actors: next to the local model, or among
/// temporary files if that lies in no directory.
pub open spec fn chosen_directory(parent: Option<String>, temporary: String) -> String {
    match parent {
        Some(directory) => if directory@.len() > 0 {
            directory
        } else {
            temporary
        },
        None => temporary,
    }
}

/// Chooses where a model is written before it is brought to actors.
pub fn serialization_directory(parent: Option<String>, temporary: String) -> (r: String)
    ensures
        r == chosen_directory(parent, temporary),
{
    match parent {
        Some(directory) => {
            if directory.as_str().is_empty() {
                temporary
            } else {
                directory
            }
        },
        None => temporary,
    }
}

/// Reports why the directory that a model is written to could not be made.
pub fn directory_error(directory: &str, why: &str) -> (r: CoordinatorError)
    ensures
        r matches CoordinatorError::ConfigError(ClientConfigError::InvalidValue(m)) && m@
            == "Failed to create model serialization directory '"@ + directory@ + "': "@ + why@,
{
    let mut m = "Failed to create model serialization directory '".to_owned();
    m.append(directory);
    m.append("': ");
    m.append(why);
    CoordinatorError::ConfigError(ClientConfigError::InvalidValue(m))
}

/// The actors of a list that are assigned to a router, in their order.
pub open spec fn routed(ids: Seq<u128>, routers: Map<u128, Seq<char>>) -> Seq<u128> {
    ids.filter(|id: u128| routers.contains_key(id))
}

/// What an actor answers to a request for an action.
pub enum ActionReply {
    Action(u64),
    NotAnswered(String),
}

/// What is made of the answers to requests for actions, in the order in which they came: the first
/// that fails ends it.
pub open spec fn actions_mean(
    replies: Seq<(u128, ActionReply)>,
    r: Result<Seq<(u128, u64)>, CoordinatorError>,
) -> bool {
    match r {
        Ok(actions) => {
            &&& actions.len() == replies.len()
            &&& forall|i: int|
                0 <= i < replies.len() ==> #[trigger] replies[i] == (
                    actions[i].0,
                    ActionReply::Action(actions[i].1),
                )
        },
        Err(e) => exists|k: int| #[trigger] first_without_action(replies, k, e),
    }
}

/// Whether the answer at `k` is the first that fails, and the error reports it.
pub open spec fn first_without_action(
    replies: Seq<(u128, ActionReply)>,
    k: int,
    e: CoordinatorError,
) -> bool {
    &&& 0 <= k < replies.len()
    &&& forall|i: int| 0 <= i < k ==> (#[trigger] replies[i]).1 is Action
    &&& replies[k].1 matches ActionReply::NotAnswered(why)
    &&& e == CoordinatorError::ScaleManagerError(ScaleManagerError::ReceiveActionResponseError(why))
}

/// Gathers the actions that were answered.
pub fn gather_actions(replies: Vec<(u128, ActionReply)>) -> (r: Result<
    Vec<(u128, u64)>,
    CoordinatorError,
>)
    ensures
        actions_mean(
            replies@,
            match r {
                Ok(actions) => Ok(actions@),
                Err(e) => Err(e),
            },
        ),
{
    let ghost all = replies@;
    let mut left = replies;
    let mut actions: Vec<(u128, u64)> = Vec::new();
    let n: usize = left.len();
    let mut i: usize = 0;
    proof {
        assert(all.skip(0) =~= all);
    }
    while i < n
        invariant
            i <= n,
            n == all.len(),
            all == replies@,
            left@ == all.skip(i as int),
            actions@.len() == i,
            forall|k: int|
                0 <= k < i ==> #[trigger] all[k] == (
                    actions@[k].0,
                    ActionReply::Action(actions@[k].1),
                ),
        decreases n - i,
    {
        let (id, reply) = left.remove(0);
        proof {
            assert((id, reply) == all[i as int]);
            assert(all.skip(i as int).remove(0) =~= all.skip(i as int + 1));
        }
        match reply {
            ActionReply::Action(action) => {
                actions.push((id, action));
            },
            ActionReply::NotAnswered(why) => {
                let e = CoordinatorError::ScaleManagerError(
                    ScaleManagerError::ReceiveActionResponseError(why),
                );
                proof {
                    assert(first_without_action(all, i as int, e));
                }
                return Err(e);
            },
        }
        i = i + 1;
    }
    Ok(actions)
}

/// The request for an action.
pub fn action_request(actor_id: u128, observation: u64, mask: Option<u64>, reward: Real, reply_to: u64) -> (r:
    RoutedMessage)
    ensures
        r == (RoutedMessage {
            actor_id,
            protocol: RoutingProtocol::RequestInference,
            payload: RoutedPayload::RequestInference { observation, mask, reward, reply_to },
        }),
{
    RoutedMessage {
        actor_id,
        protocol: RoutingProtocol::RequestInference,
        payload: RoutedPayload::RequestInference { observation, mask, reward, reply_to },
    }
}

/// Reports why a request for an action was not sent.
pub fn action_request_sent(outcome: Result<(), String>) -> (r: Result<(), CoordinatorError>)
    ensures
        match outcome {
            Ok(_) => r is Ok,
            Err(why) => r == Err::<(), CoordinatorError>(
                CoordinatorError::ScaleManagerError(ScaleManagerError::SendActionRequestError(why)),
            ),
        },
{
    match outcome {
        Ok(_) => Ok(()),
        Err(why) => Err(
            CoordinatorError::ScaleManagerError(ScaleManagerError::SendActionRequestError(why)),
        ),
    }
}

/// Reports why the end of an episode was not announced.
pub fn flag_last_action_sent(outcome: Result<(), String>) -> (r: Result<(), CoordinatorError>)
    ensures
        match outcome {
            Ok(_) => r is Ok,
            Err(why) => r == Err::<(), CoordinatorError>(
                CoordinatorError::ScaleManagerError(
                    ScaleManagerError::SendFlagLastActionMessageError(why),
                ),
            ),
        },
{
    match outcome {
        Ok(_) => Ok(()),
        Err(why) => Err(
            CoordinatorError::ScaleManagerError(
                ScaleManagerError::SendFlagLastActionMessageError(why),
            ),
        ),
    }
}

impl ClientCoordinator {
    pub fn new(transport_type: TransportType, client_modes: ClientModes) -> (r: Self)
        ensures
            r == (ClientCoordinator { transport_type, client_modes, runtime_params: None }),
    {
        ClientCoordinator { transport_type, client_modes, runtime_params: None }
    }

    /// The runtime, which an operation needs.
    pub fn runtime(&self, operation: RuntimeOperation) -> (r: Result<
        &CoordinatorParams,
        CoordinatorError,
    >)
        ensures
            match self.runtime_params {
                Some(params) => r == Ok::<&CoordinatorParams, CoordinatorError>(&params),
                None => r matches Err(e) && operation.is_missing_runtime(e),
            },
    {
        match &self.runtime_params {
            Some(params) => Ok(params),
            None => Err(operation.missing_runtime()),
        }
    }

    /// What a runtime is started with: a configuration, over which the addresses and the trajectory
    /// output go that the modes of the client give.
    pub open spec fn plans(
        self,
        client_namespace: String,
        algorithm: Algorithm,
        config: ClientConfigLoader,
        config_path: String,
        working_directory: Seq<char>,
        plan: StartPlan,
    ) -> bool {
        let l = plan.lifecycle;
        let addresses = overlaid(
            config.transport_config,
            self.transport_type,
            inference_args(self.client_modes),
            training_args(self.client_modes),
        );
        &&& plan.client_namespace == client_namespace
        &&& plan.dispatchers == spec_dispatchers(self.client_modes)
        &&& plan.shares_addresses == (self.client_modes.actor_inference_mode.spec_uses_server()
            || self.client_modes.actor_training_data_mode.spec_is_online())
        &&& addresses_of(addresses, self.transport_type, l.transport_addresses)
        &&& is_output_below(
            working_directory,
            match trajectory_files(self.client_modes) {
                Some(files) => files,
                None => config.client_config.trajectory_file_output,
            },
            l.trajectory_file_output,
        )
        &&& exists|configured: LifecycleManager|
            {
                &&& #[trigger] configured.reflects(config, None, working_directory)
                &&& configured.algorithm == algorithm
                &&& configured.transport_type == self.transport_type
                &&& configured.config_path == config_path
                &&& l == (LifecycleManager {
                    transport_addresses: l.transport_addresses,
                    trajectory_file_output: l.trajectory_file_output,
                    ..configured
                })
            }
    }

    /// Decides what a runtime is started with, from a configuration that was loaded. Its paths are
    /// taken from the working directory.
    pub fn start(
        &self,
        client_namespace: String,
        algorithm: Algorithm,
        config: &ClientConfigLoader,
        config_path: String,
        working_directory: &str,
        last_modified: i128,
        config_update_polling_seconds: u64,
    ) -> (r: StartPlan)
        requires
            config.client_config.init_hyperparameters.wf(),
        ensures
            self.plans(
                client_namespace,
                algorithm,
                *config,
                config_path,
                working_directory@,
                r,
            ),
            r.lifecycle.last_modified == last_modified,
            r.lifecycle.config_update_polling_seconds == config_update_polling_seconds,
    {
        let mut lifecycle = LifecycleManager::new(
            algorithm,
            config,
            config_path,
            self.transport_type,
            working_directory,
            last_modified,
            config_update_polling_seconds,
        );
        let ghost configured = lifecycle;
        proof {
            assert(configured.reflects(*config, None, working_directory@));
        }
        let inference = inference_args_of(&self.client_modes);
        let training = training_args_of(&self.client_modes);
        if inference.is_some() || training.is_some() {
            let mut transport_config = config.transport_config.clone();
            apply_address_args(&mut transport_config, self.transport_type, &self.client_modes);
            lifecycle.set_transport_addresses(&transport_config, &self.transport_type);
        } else {
            proof {
                law_configured_addresses_stay(
                    config.transport_config,
                    self.transport_type,
                    self.client_modes,
                );
            }
        }
        if let Some(files) = trajectory_file_params(&self.client_modes) {
            lifecycle.set_trajectory_file_path(working_directory, files);
        }
        StartPlan {
            client_namespace,
            lifecycle,
            dispatchers: dispatchers(&self.client_modes),
            shares_addresses: shares_addresses(&self.client_modes),
        }
    }

    /// Whether a runtime that was started has been taken over: without actors and without routers.
    pub open spec fn takes_over(
        self,
        plan: StartPlan,
        trajectory_memory: Option<u64>,
        after: Self,
    ) -> bool {
        &&& after.transport_type == self.transport_type
        &&& after.client_modes == self.client_modes
        &&& after.runtime_params matches Some(params)
        &&& params.client_namespace == plan.client_namespace
        &&& params.lifecycle == plan.lifecycle
        &&& params.routers is None
        &&& params.trajectory_memory == trajectory_memory
        &&& params.has_scaling_dispatcher == plan.dispatchers.scaling
        &&& params.shared_state.client_namespace == plan.client_namespace
        &&& params.shared_state.client_modes == self.client_modes
        &&& params.shared_state.handles() == Map::<u128, u64>::empty()
        &&& params.shared_state.inboxes() == Map::<u128, u64>::empty()
        &&& params.shared_state.devices() == Map::<u128, u64>::empty()
        &&& params.shared_state.models() == Map::<u128, u64>::empty()
        &&& params.shared_state.routers() == Map::<u128, Seq<char>>::empty()
        &&& params.shared_state.shared_local_models@.len() == 0
        &&& params.shared_state.actor_count == 0
    }

    /// Takes over a runtime that was started: without actors and without routers.
    pub fn started(&mut self, plan: StartPlan, trajectory_memory: Option<u64>)
        ensures
            old(self).takes_over(plan, trajectory_memory, *final(self)),
    {
        let shared_state = StateManager::new(
            plan.client_namespace.clone(),
            self.client_modes.clone(),
        );
        self.runtime_params = Some(
            CoordinatorParams {
                client_namespace: plan.client_namespace,
                lifecycle: plan.lifecycle,
                shared_state,
                routers: None,
                trajectory_memory,
                has_scaling_dispatcher: plan.dispatchers.scaling,
            },
        );
    }

    /// The steps in which the runtime is shut down, in their order. A step that fails ends it, and
    /// the runtime stays.
    pub fn shutdown(&self) -> (r: Result<Vec<ShutdownStep>, CoordinatorError>)
        ensures
            match self.runtime_params {
                None => r matches Err(e) && RuntimeOperation::Shutdown.is_missing_runtime(e),
                Some(params) => {
                    &&& r matches Ok(steps)
                    &&& steps@ == shutdown_steps(params.has_scaling_dispatcher)
                    &&& steps@[0] == ShutdownStep::ShutdownActors
                    &&& steps@.last() == ShutdownStep::Forget
                    &&& steps@.no_duplicates()
                },
            },
    {
        match self.runtime(RuntimeOperation::Shutdown) {
            Err(e) => Err(e),
            Ok(params) => {
                let mut steps: Vec<ShutdownStep> = Vec::new();
                steps.push(ShutdownStep::ShutdownActors);
                steps.push(ShutdownStep::SignalServers);
                if params.has_scaling_dispatcher {
                    steps.push(ShutdownStep::ShutdownTransport);
                }
                steps.push(ShutdownStep::SignalRuntime);
                steps.push(ShutdownStep::ClearRouters);
                steps.push(ShutdownStep::Forget);
                proof {
                    assert(steps@ =~= shutdown_steps(params.has_scaling_dispatcher));
                }
                Ok(steps)
            },
        }
    }

    /// Takes the last step of shutting down: the namespace leaves the registry, and the runtime is
    /// gone. The registry gives no answer, so what it holds afterwards is not stated.
    pub fn forget_runtime(&mut self)
        ensures
            *final(self) == (ClientCoordinator { runtime_params: None, ..*old(self) }),
    {
        if let Some(params) = &mut self.runtime_params {
            remove_namespace(params.client_namespace.as_str());
            params.shared_state.clear_runtime_components();
        }
        self.runtime_params = None;
    }

    /// The actors that are asked for an action: of those listed, the ones that are assigned to a
    /// router.
    pub fn request_action(&self, ids: &Vec<u128>) -> (r: Result<Vec<u128>, CoordinatorError>)
        ensures
            match self.runtime_params {
                None => r matches Err(e) && RuntimeOperation::RequestAction.is_missing_runtime(e),
                Some(params) => if params.routers is None {
                    r matches Err(
                        CoordinatorError::ScaleManagerError(
                            ScaleManagerError::GetRouterRuntimeParamsError(m),
                        ),
                    ) && m@ == "[Coordinator] No scaling runtime params"@
                } else {
                    r matches Ok(valid) && valid@ == routed(ids@, params.shared_state.routers())
                },
            },
    {
        let params = match self.runtime(RuntimeOperation::RequestAction) {
            Ok(params) => params,
            Err(e) => {
                return Err(e);
            },
        };
        if params.routers.is_none() {
            return Err(
                CoordinatorError::ScaleManagerError(
                    ScaleManagerError::GetRouterRuntimeParamsError(
                        "[Coordinator] No scaling runtime params".to_owned(),
                    ),
                ),
            );
        }
        let ghost routers = params.shared_state.routers();
        let ghost pred = |id: u128| routers.contains_key(id);
        let mut valid: Vec<u128> = Vec::new();
        let mut i: usize = 0;
        while i < ids.len()
            invariant
                i <= ids@.len(),
                routers == params.shared_state.routers(),
                pred == (|id: u128| routers.contains_key(id)),
                valid@ == ids@.take(i as int).filter(pred),
            decreases ids@.len() - i,
        {
            proof {
                let next = ids@.take(i as int + 1);
                assert(next.drop_last() =~= ids@.take(i as int));
                reveal(Seq::filter);
            }
            if names_get(&params.shared_state.actor_router_addresses, ids[i]).is_some() {
                valid.push(ids[i]);
            }
            i = i + 1;
        }
        proof {
            assert(ids@.take(i as int) =~= ids@);
        }
        Ok(valid)
    }

    /// The messages that end the episodes of actors, with the reward given or none.
    pub fn flag_last_action(&self, ids: &Vec<u128>, reward: Option<Real>) -> (r: Result<
        Vec<RoutedMessage>,
        CoordinatorError,
    >)
        ensures
            match self.runtime_params {
                None => r matches Err(e) && RuntimeOperation::FlagLastAction.is_missing_runtime(e),
                Some(_) => {
                    &&& r matches Ok(messages)
                    &&& messages@.len() == ids@.len()
                    &&& forall|i: int|
                        0 <= i < ids@.len() ==> is_flag(#[trigger] messages@[i], ids@[i], reward)
                },
            },
    {
        if let Err(e) = self.runtime(RuntimeOperation::FlagLastAction) {
            return Err(e);
        }
        let mut messages: Vec<RoutedMessage> = Vec::new();
        let mut i: usize = 0;
        while i < ids.len()
            invariant
                i <= ids@.len(),
                messages@.len() == i,
                forall|k: int| 0 <= k < i ==> is_flag(#[trigger] messages@[k], ids@[k], reward),
            decreases ids@.len() - i,
        {
            let amount = match &reward {
                Some(given) => given.clone(),
                None => Real::of("0"),
            };
            messages.push(
                RoutedMessage {
                    actor_id: ids[i],
                    protocol: RoutingProtocol::FlagLastInference,
                    payload: RoutedPayload::FlagLastInference {
                        reward: amount,
                        env_id: None,
                        env_label: None,
                    },
                },
            );
            i = i + 1;
        }
        Ok(messages)
    }

    /// The actors that a model is brought to: under local inference, those that stand for the ones
    /// listed, or for all. Where a server takes part in inference, models are not brought by the
    /// client.
    pub fn prepare_model_update_dispatch(&self, actor_ids: Option<&Vec<u128>>) -> (r: Result<
        Option<Vec<u128>>,
        CoordinatorError,
    >)
        ensures
            match self.runtime_params {
                None => r matches Err(e) && RuntimeOperation::UpdateModel.is_missing_runtime(e),
                Some(params) => if self.client_modes.actor_inference_mode.spec_uses_server() {
                    r == Ok::<Option<Vec<u128>>, CoordinatorError>(None)
                } else {
                    &&& r matches Ok(Some(targets))
                    &&& are_targets(
                        params.shared_state,
                        listed(actor_ids),
                        targets@,
                    )
                },
            },
    {
        let params = match self.runtime(RuntimeOperation::UpdateModel) {
            Ok(params) => params,
            Err(e) => {
                return Err(e);
            },
        };
        match &self.client_modes.actor_inference_mode {
            ActorInferenceMode::Local(_) => Ok(
                Some(params.shared_state.model_update_dispatch_targets_for_subset(actor_ids)),
            ),
            ActorInferenceMode::ServerOverflow(_, _) => Ok(None),
            ActorInferenceMode::Server(_) => Ok(None),
        }
    }

    /// Decides whether a model is brought to actors, to which, and where it is written before: nothing
    /// is done where models are not brought by the client or there is nobody to bring it to.
    pub fn update_model(
        &self,
        actor_ids: Option<&Vec<u128>>,
        model_directory: Option<String>,
        temporary: String,
    ) -> (r: Result<Option<ModelUpdatePlan>, CoordinatorError>)
        ensures
            match self.runtime_params {
                None => r matches Err(e) && RuntimeOperation::UpdateModel.is_missing_runtime(e),
                Some(params) => if self.client_modes.actor_inference_mode.spec_uses_server() {
                    r == Ok::<Option<ModelUpdatePlan>, CoordinatorError>(None)
                } else {
                    exists|targets: Seq<u128>| #[trigger]
                        are_targets(
                            params.shared_state,
                            listed(actor_ids),
                            targets,
                        ) && (if targets.len() == 0 {
                            r == Ok::<Option<ModelUpdatePlan>, CoordinatorError>(None)
                        } else {
                            &&& r matches Ok(Some(plan))
                            &&& plan.targets@ == targets
                            &&& plan.directory == chosen_directory(model_directory, temporary)
                        })
                },
            },
    {
        match self.prepare_model_update_dispatch(actor_ids) {
            Err(e) => Err(e),
            Ok(None) => Ok(None),
            Ok(Some(targets)) => {
                let ghost all = targets@;
                proof {
                    assert(are_targets(
                        self.runtime_params->0.shared_state,
                        listed(actor_ids),
                        all,
                    ));
                }
                if targets.len() == 0 {
                    return Ok(None);
                }
                let directory = serialization_directory(model_directory, temporary);
                Ok(Some(ModelUpdatePlan { targets, directory }))
            },
        }
    }

    /// The memory that trajectories are kept in.
    pub fn get_trajectory_memory(&self) -> (r: Result<u64, CoordinatorError>)
        ensures
            match self.runtime_params {
                None => r matches Err(e) && RuntimeOperation::GetTrajectoryMemory.is_missing_runtime(
                    e,
                ),
                Some(params) => match params.trajectory_memory {
                    Some(memory) => r == Ok::<u64, CoordinatorError>(memory),
                    None => r matches Err(
                        CoordinatorError::ScaleManagerError(
                            ScaleManagerError::TrajectoryMemoryNotFoundError(m),
                        ),
                    ) && m@ == "[Coordinator] Trajectory memory not found"@,
                },
            },
    {
        match self.runtime(RuntimeOperation::GetTrajectoryMemory) {
            Err(e) => Err(e),
            Ok(params) => match params.trajectory_memory {
                Some(memory) => Ok(memory),
                None => Err(
                    CoordinatorError::ScaleManagerError(
                        ScaleManagerError::TrajectoryMemoryNotFoundError(
                            "[Coordinator] Trajectory memory not found".to_owned(),
                        ),
                    ),
                ),
            },
        }
    }

    /// What scaling leads to, from the routers that there are afterwards, or why it failed.
    pub open spec fn scales(
        self,
        operation: RuntimeOperation,
        outcome: Result<Vec<String>, ScaleManagerError>,
        after: Self,
        r: Result<(), CoordinatorError>,
    ) -> bool {
        match (self.runtime_params, outcome) {
            (None, _) => after == self && (r matches Err(e) && operation.is_missing_runtime(e)),
            (Some(_), Err(e)) => after == self && r == Err::<(), CoordinatorError>(
                CoordinatorError::ScaleManagerError(e),
            ),
            (Some(params), Ok(routers)) => r is Ok && after == (ClientCoordinator {
                runtime_params: Some(CoordinatorParams { routers: Some(routers), ..params }),
                ..self
            }),
        }
    }

    fn scale(
        &mut self,
        operation: RuntimeOperation,
        outcome: Result<Vec<String>, ScaleManagerError>,
    ) -> (r: Result<(), CoordinatorError>)
        ensures
            old(self).scales(operation, outcome, *final(self), r),
    {
        match &mut self.runtime_params {
            None => Err(operation.missing_runtime()),
            Some(params) => match outcome {
                Err(e) => Err(CoordinatorError::ScaleManagerError(e)),
                Ok(routers) => {
                    params.routers = Some(routers);
                    Ok(())
                },
            },
        }
    }

    /// Takes note of the routers that there are after some were added, or why none were.
    pub fn scale_out(&mut self, outcome: Result<Vec<String>, ScaleManagerError>) -> (r: Result<
        (),
        CoordinatorError,
    >)
        ensures
            old(self).scales(RuntimeOperation::ScaleOut, outcome, *final(self), r),
    {
        self.scale(RuntimeOperation::ScaleOut, outcome)
    }

    /// Takes note of the routers that there are after some were removed, or why none were.
    pub fn scale_in(&mut self, outcome: Result<Vec<String>, ScaleManagerError>) -> (r: Result<
        (),
        CoordinatorError,
    >)
        ensures
            old(self).scales(RuntimeOperation::ScaleIn, outcome, *final(self), r),
    {
        self.scale(RuntimeOperation::ScaleIn, outcome)
    }

    /// The path of the configuration in force.
    pub fn get_config(&self) -> (r: Result<&String, CoordinatorError>)
        ensures
            match self.runtime_params {
                None => r matches Err(e) && RuntimeOperation::GetConfig.is_missing_runtime(e),
                Some(params) => r == Ok::<&String, CoordinatorError>(
                    &params.lifecycle.config_path,
                ),
            },
    {
        match self.runtime(RuntimeOperation::GetConfig) {
            Ok(params) => Ok(params.lifecycle.get_config_path()),
            Err(e) => Err(e),
        }
    }

    /// Takes over a configuration that was read from another path.
    pub fn set_config_path(&mut self, new_config: &ClientConfigLoader, working_directory: &str) -> (r:
        Result<(), CoordinatorError>)
        requires
            new_config.client_config.init_hyperparameters.wf(),
        ensures
            match old(self).runtime_params {
                None => *final(self) == *old(self) && (r matches Err(e)
                    && RuntimeOperation::SetConfigPath.is_missing_runtime(e)),
                Some(params) => {
                    &&& r is Ok
                    &&& final(self).runtime_params matches Some(after)
                    &&& after.lifecycle.reflects(
                        *new_config,
                        Some(params.lifecycle.algorithm@),
                        working_directory@,
                    )
                    &&& after.lifecycle.config_path == params.lifecycle.config_path
                    &&& *final(self) == (ClientCoordinator {
                        runtime_params: Some(
                            CoordinatorParams { lifecycle: after.lifecycle, ..params },
                        ),
                        ..*old(self)
                    })
                },
            },
    {
        match &mut self.runtime_params {
            None => Err(RuntimeOperation::SetConfigPath.missing_runtime()),
            Some(params) => {
                params.lifecycle.handle_config_change(new_config, working_directory);
                Ok(())
            },
        }
    }

    /// What is reported of an actor that was added to the state, or could not be.
    pub open spec fn reports_actor(
        before: StateManager,
        after: StateManager,
        namespace: Seq<char>,
        actor_id: u128,
        router: Seq<char>,
        device: u64,
        load: ModelLoad,
        fresh: ActorTokens,
        send_id: bool,
        send_algorithm_init: bool,
        r: Result<AddedActor, CoordinatorError>,
    ) -> bool {
        exists|added: NewActor|
            {
                &&& #[trigger] before.adds(after, actor_id, router, device, load, fresh, added)
                &&& match added.outcome {
                    Err(e) => r == Err::<AddedActor, CoordinatorError>(
                        CoordinatorError::StateManagerError(e),
                    ),
                    Ok(needs_handshake) => {
                        &&& r matches Ok(actor)
                        &&& actor.actor_id == actor_id
                        &&& actor.replaced_handle == added.replaced_handle
                        &&& actor.needs_handshake == needs_handshake
                        &&& actor.init_algorithm == (send_id && send_algorithm_init)
                        &&& actor.announce is Some <==> send_id
                        &&& actor.announce matches Some(entry) ==> entry.namespace@ == namespace
                            && entry.context@ == ACTOR_CONTEXT@ && entry.id == actor_id
                    },
                }
            }
    }

    /// What adding an actor leads to, from what came of registering an identifier for it: the actor
    /// is assigned to a router in turn and added to the state; it may be announced to servers.
    pub open spec fn adds_actor(
        self,
        after: Self,
        reserved: Result<u128, UuidPoolError>,
        device: u64,
        load: ModelLoad,
        fresh: ActorTokens,
        send_id: bool,
        send_algorithm_init: bool,
        r: Result<AddedActor, CoordinatorError>,
    ) -> bool {
        match (self.runtime_params, reserved) {
            (None, _) => after == self && (r matches Err(e)
                && RuntimeOperation::NewActor.is_missing_runtime(e)),
            (Some(_), Err(refusal)) => after == self && r == Err::<AddedActor, CoordinatorError>(
                CoordinatorError::UuidPoolError(refusal),
            ),
            (Some(params), Ok(actor_id)) => {
                let names = match params.routers {
                    Some(names) => Some(names@),
                    None => None,
                };
                let actors = params.shared_state.inboxes().len();
                if names is None || names->0.len() == 0 {
                    after == self && (r matches Err(e) && is_assigned(names, actors, Err(e)))
                } else {
                    let router = names->0[actors as int % names->0.len() as int]@;
                    &&& after.runtime_params is Some
                    &&& after == (ClientCoordinator {
                        runtime_params: Some(
                            CoordinatorParams {
                                shared_state: after.runtime_params->0.shared_state,
                                ..params
                            },
                        ),
                        ..self
                    })
                    &&& Self::reports_actor(
                        params.shared_state,
                        after.runtime_params->0.shared_state,
                        params.client_namespace@,
                        actor_id,
                        router,
                        device,
                        load,
                        fresh,
                        send_id,
                        send_algorithm_init,
                        r,
                    )
                }
            },
        }
    }

    /// Adds an actor under an identifier that was registered for it, or reports why none was.
    pub fn add_actor(
        &mut self,
        reserved: Result<u128, UuidPoolError>,
        device: u64,
        load: ModelLoad,
        fresh: ActorTokens,
        send_id: bool,
        send_algorithm_init: bool,
    ) -> (r: Result<AddedActor, CoordinatorError>)
        ensures
            old(self).adds_actor(
                *final(self),
                reserved,
                device,
                load,
                fresh,
                send_id,
                send_algorithm_init,
                r,
            ),
    {
        match &mut self.runtime_params {
            None => Err(RuntimeOperation::NewActor.missing_runtime()),
            Some(params) => {
                let actor_id: u128 = match reserved {
                    Ok(id) => id,
                    Err(refusal) => {
                        return Err(CoordinatorError::UuidPoolError(refusal));
                    },
                };
                let actors: usize = tokens_len(&params.shared_state.actor_inboxes);
                let router = match assigned_router(&params.routers, actors) {
                    Ok(router) => router,
                    Err(e) => {
                        return Err(e);
                    },
                };
                let added = params.shared_state.new_actor(actor_id, router, device, load, fresh);
                proof {
                    assert(old(self).runtime_params->0.shared_state.adds(
                        params.shared_state,
                        actor_id,
                        router@,
                        device,
                        load,
                        fresh,
                        added,
                    ));
                }
                match added.outcome {
                    Err(e) => Err(CoordinatorError::StateManagerError(e)),
                    Ok(needs_handshake) => Ok(
                        AddedActor {
                            actor_id,
                            replaced_handle: added.replaced_handle,
                            needs_handshake,
                            announce: if send_id {
                                Some(
                                    IdEntry {
                                        namespace: params.client_namespace.clone(),
                                        context: ACTOR_CONTEXT.to_owned(),
                                        id: actor_id,
                                    },
                                )
                            } else {
                                None
                            },
                            init_algorithm: send_id && send_algorithm_init,
                        },
                    ),
                }
            },
        }
    }

    /// Adds an actor under a new identifier. Whether one is found depends on the registry.
    pub fn new_actor(
        &mut self,
        device: u64,
        load: ModelLoad,
        fresh: ActorTokens,
        send_id: bool,
        send_algorithm_init: bool,
    ) -> (r: Result<AddedActor, CoordinatorError>)
        ensures
            exists|reserved: Result<u128, UuidPoolError>|
                {
                    &&& #[trigger] old(self).adds_actor(
                        *final(self),
                        reserved,
                        device,
                        load,
                        fresh,
                        send_id,
                        send_algorithm_init,
                        r,
                    )
                    &&& old(self).runtime_params matches Some(params) ==> match reserved {
                        Ok(id) => id as int / 0x1_0000_0000_0000_0000_0000_0000 == 117,
                        Err(e) => refuses_reservation(
                            params.client_namespace@,
                            100,
                            pool_error_chars(e),
                        ),
                    }
                },
    {
        let reserved = match &self.runtime_params {
            None => Ok(0),
            Some(params) => {
                let slot = actor_slot(params.client_namespace.as_str());
                reserve_slot(&slot)
            },
        };
        self.add_actor(reserved, device, load, fresh, send_id, send_algorithm_init)
    }

    /// Removes an actor, and tells servers the identifiers of those that remain if they are to
    /// know. The task of the actor is to be aborted in any case. What the registry holds, and
    /// whether it refuses, depends on the registry.
    pub fn remove_actor(&mut self, id: u128, send_ids: bool) -> (r: (
        Option<u64>,
        Result<Option<Vec<IdEntry>>, CoordinatorError>,
    ))
        ensures
            match old(self).runtime_params {
                None => *final(self) == *old(self) && r.0 is None && (r.1 matches Err(e)
                    && RuntimeOperation::RemoveActor.is_missing_runtime(e)),
                Some(params) => {
                    &&& final(self).runtime_params is Some
                    &&& *final(self) == (ClientCoordinator {
                        runtime_params: Some(
                            CoordinatorParams {
                                shared_state: final(self).runtime_params->0.shared_state,
                                ..params
                            },
                        ),
                        ..*old(self)
                    })
                    &&& exists|removed: RemovedActor|
                        {
                            &&& #[trigger] params.shared_state.removes(
                                final(self).runtime_params->0.shared_state,
                                id,
                                removed,
                            )
                            &&& reports_removal(removed, send_ids, params.client_namespace@, r)
                        }
                },
            },
    {
        match &mut self.runtime_params {
            None => (None, Err(RuntimeOperation::RemoveActor.missing_runtime())),
            Some(params) => {
                let removed = params.shared_state.remove_actor(id);
                proof {
                    assert(old(self).runtime_params->0.shared_state.removes(
                        params.shared_state,
                        id,
                        removed,
                    ));
                }
                after_removal(removed, send_ids, params.client_namespace.as_str())
            },
        }
    }

    /// Gives an actor another identifier and hands out the identifiers of all actors for servers to
    /// know. What the registry holds, and whether it refuses, depends on the registry.
    pub fn set_actor_id(&mut self, current_id: u128, new_id: u128) -> (r: Result<
        Vec<IdEntry>,
        CoordinatorError,
    >)
        ensures
            match old(self).runtime_params {
                None => *final(self) == *old(self) && (r matches Err(e)
                    && RuntimeOperation::SetActorId.is_missing_runtime(e)),
                Some(params) => {
                    &&& final(self).runtime_params is Some
                    &&& *final(self) == (ClientCoordinator {
                        runtime_params: Some(
                            CoordinatorParams {
                                shared_state: final(self).runtime_params->0.shared_state,
                                ..params
                            },
                        ),
                        ..*old(self)
                    })
                    &&& exists|renamed: Result<(), StateManagerError>|
                        {
                            &&& #[trigger] params.shared_state.renames(
                                final(self).runtime_params->0.shared_state,
                                current_id,
                                new_id,
                                renamed,
                            )
                            &&& match renamed {
                                Err(e) => r == Err::<Vec<IdEntry>, CoordinatorError>(
                                    CoordinatorError::StateManagerError(e),
                                ),
                                Ok(_) => reports_actors(params.client_namespace@, r),
                            }
                        }
                },
            },
    {
        match &mut self.runtime_params {
            None => Err(RuntimeOperation::SetActorId.missing_runtime()),
            Some(params) => {
                let renamed = params.shared_state.set_actor_id(current_id, new_id);
                proof {
                    assert(old(self).runtime_params->0.shared_state.renames(
                        params.shared_state,
                        current_id,
                        new_id,
                        renamed,
                    ));
                }
                if let Err(e) = renamed {
                    return Err(CoordinatorError::StateManagerError(e));
                }
                actor_entries(params.client_namespace.as_str())
            },
        }
    }
}

/// How far the start of a runtime has come.
#[derive(Clone, Copy, Debug, PartialEq, Eq, Structural)]
pub enum StartStage {
    Transport,
    Scaling,
    Routers,
    Actors,
    ClientIds,
    AlgorithmInit,
    Over,
}

/// A runtime that is being started.
pub struct StartRun {
    pub stage: StartStage,
    /// What the runtime is started with, until it is taken over.
    pub plan: Option<StartPlan>,
    pub router_scale: u32,
    pub actors_left: u32,
}

/// What came of a step of starting a runtime.
pub enum StartEvent {
    TransportMade(Result<(), TransportError>),
    /// The routers' manager was made, with the memory for trajectories if they are kept.
    ScalingMade(Result<Option<u64>, ScaleManagerError>),
    /// Routers were added; these are there now.
    ScaledOut(Result<Vec<String>, ScaleManagerError>),
    ActorAdded(Result<(), CoordinatorError>),
    ClientIdsSent(Result<(), ScaleManagerError>),
    AlgorithmInitSent(Result<(), ScaleManagerError>),
}

/// What is done next to start a runtime.
pub enum StartAction {
    MakeScaling,
    ScaleOut { routers: u32 },
    /// An actor is added that servers are not told of by itself.
    AddActor,
    /// Servers are told these identifiers in place of all that they know of the client.
    SendClientIds(Vec<IdEntry>),
    /// Servers are asked to set the algorithm up for these actors.
    SendAlgorithmInit(Vec<IdEntry>),
    End(Result<(), CoordinatorError>),
}

impl StartRun {
    /// The start of a runtime, as planned. Its transport is made first.
    pub fn new(plan: StartPlan, router_scale: u32, actor_count: u32) -> (r: Self)
        ensures
            r == (StartRun {
                stage: StartStage::Transport,
                plan: Some(plan),
                router_scale,
                actors_left: actor_count,
            }),
    {
        StartRun {
            stage: StartStage::Transport,
            plan: Some(plan),
            router_scale,
            actors_left: actor_count,
        }
    }

    /// Whether an event can happen at this stage.
    pub open spec fn expects(self, coordinator: ClientCoordinator, event: StartEvent) -> bool {
        match event {
            StartEvent::TransportMade(_) => self.stage == StartStage::Transport && self.plan is Some,
            StartEvent::ScalingMade(_) => self.stage == StartStage::Scaling && self.plan is Some,
            StartEvent::ScaledOut(_) => self.stage == StartStage::Routers
                && coordinator.runtime_params is Some,
            StartEvent::ActorAdded(_) => self.stage == StartStage::Actors && self.actors_left > 0
                && coordinator.runtime_params is Some,
            StartEvent::ClientIdsSent(_) => self.stage == StartStage::ClientIds
                && coordinator.runtime_params is Some,
            StartEvent::AlgorithmInitSent(_) => self.stage == StartStage::AlgorithmInit,
        }
    }

    /// Whether the start has ended, with this outcome.
    pub open spec fn ends(
        self,
        after: Self,
        outcome: Result<(), CoordinatorError>,
        r: StartAction,
    ) -> bool {
        after == (StartRun { stage: StartStage::Over, ..self }) && r == StartAction::End(outcome)
    }

    /// What follows from the entries that the registry holds for the client: they are sent, or
    /// their lack ends the start.
    pub open spec fn announces_client(
        self,
        found: Result<Vec<IdEntry>, UuidPoolError>,
        after: Self,
        r: StartAction,
    ) -> bool {
        match found {
            Ok(entries) => after == (StartRun { stage: StartStage::ClientIds, ..self }) && r
                == StartAction::SendClientIds(entries),
            Err(e) => self.ends(after, Err(CoordinatorError::UuidPoolError(e)), r),
        }
    }

    /// What follows from the entries that the registry holds for the client's actors: the
    /// algorithm is set up for them, or their lack ends the start.
    pub open spec fn announces_actors(
        self,
        found: Result<Vec<IdEntry>, UuidPoolError>,
        after: Self,
        r: StartAction,
    ) -> bool {
        match found {
            Ok(entries) => after == (StartRun { stage: StartStage::AlgorithmInit, ..self }) && r
                == StartAction::SendAlgorithmInit(entries),
            Err(e) => self.ends(after, Err(CoordinatorError::UuidPoolError(e)), r),
        }
    }

    /// What follows once routers are there and when an actor has been added: the next actor, or
    /// the announcement of the client where there are enough.
    pub open spec fn adds_or_announces(
        self,
        client_namespace: Seq<char>,
        after: Self,
        r: StartAction,
    ) -> bool {
        if self.actors_left > 0 {
            after == (StartRun { stage: StartStage::Actors, ..self }) && r is AddActor
        } else {
            exists|found: Result<Vec<IdEntry>, UuidPoolError>|
                {
                    &&& #[trigger] self.announces_client(found, after, r)
                    &&& answers_namespace(client_namespace, found)
                }
        }
    }

    /// What a step of starting a runtime leads to: what becomes of the start and of the
    /// coordinator, and what is done next. Whatever fails ends the start; a runtime that was taken
    /// over stays.
    pub open spec fn leads(
        self,
        coordinator: ClientCoordinator,
        event: StartEvent,
        after: Self,
        coordinator_after: ClientCoordinator,
        r: StartAction,
    ) -> bool {
        match event {
            StartEvent::TransportMade(Ok(_)) => {
                &&& coordinator_after == coordinator
                &&& after == (StartRun { stage: StartStage::Scaling, ..self })
                &&& r is MakeScaling
            },
            StartEvent::TransportMade(Err(e)) => {
                &&& coordinator_after == coordinator
                &&& self.ends(after, Err(CoordinatorError::TransportError(e)), r)
            },
            StartEvent::ScalingMade(Ok(memory)) => {
                &&& coordinator.takes_over(self.plan->0, memory, coordinator_after)
                &&& after == (StartRun { stage: StartStage::Routers, plan: None, ..self })
                &&& r == (StartAction::ScaleOut { routers: self.router_scale })
            },
            StartEvent::ScaledOut(Ok(routers)) => {
                let params = coordinator.runtime_params->0;
                &&& coordinator_after == (ClientCoordinator {
                    runtime_params: Some(CoordinatorParams { routers: Some(routers), ..params }),
                    ..coordinator
                })
                &&& self.adds_or_announces(params.client_namespace@, after, r)
            },
            StartEvent::ActorAdded(Ok(_)) => {
                &&& coordinator_after == coordinator
                &&& (StartRun {
                    actors_left: (self.actors_left - 1) as u32,
                    ..self
                }).adds_or_announces(
                    coordinator.runtime_params->0.client_namespace@,
                    after,
                    r,
                )
            },
            StartEvent::ActorAdded(Err(e)) => {
                &&& coordinator_after == coordinator
                &&& self.ends(after, Err(e), r)
            },
            StartEvent::ClientIdsSent(Ok(_)) => {
                &&& coordinator_after == coordinator
                &&& exists|found: Result<Vec<IdEntry>, UuidPoolError>|
                    {
                        &&& #[trigger] self.announces_actors(found, after, r)
                        &&& answers_context(
                            coordinator.runtime_params->0.client_namespace@,
                            ACTOR_CONTEXT@,
                            found,
                        )
                    }
            },
            StartEvent::AlgorithmInitSent(Ok(_)) => {
                &&& coordinator_after == coordinator
                &&& self.ends(after, Ok(()), r)
            },
            StartEvent::ScalingMade(Err(e)) => {
                &&& coordinator_after == coordinator
                &&& self.ends(after, Err(CoordinatorError::ScaleManagerError(e)), r)
            },
            StartEvent::ScaledOut(Err(e)) => {
                &&& coordinator_after == coordinator
                &&& self.ends(after, Err(CoordinatorError::ScaleManagerError(e)), r)
            },
            StartEvent::ClientIdsSent(Err(e)) => {
                &&& coordinator_after == coordinator
                &&& self.ends(after, Err(CoordinatorError::ScaleManagerError(e)), r)
            },
            StartEvent::AlgorithmInitSent(Err(e)) => {
                &&& coordinator_after == coordinator
                &&& self.ends(after, Err(CoordinatorError::ScaleManagerError(e)), r)
            },
        }
    }

    fn end(&mut self, outcome: Result<(), CoordinatorError>) -> (r: StartAction)
        ensures
            old(self).ends(*final(self), outcome, r),
    {
        self.stage = StartStage::Over;
        StartAction::End(outcome)
    }

    /// Decides what follows from the entries that the registry holds for the client.
    pub fn announce_client(&mut self, found: Result<Vec<IdEntry>, UuidPoolError>) -> (r: StartAction)
        ensures
            old(self).announces_client(found, *final(self), r),
    {
        match found {
            Ok(entries) => {
                self.stage = StartStage::ClientIds;
                StartAction::SendClientIds(entries)
            },
            Err(e) => self.end(Err(CoordinatorError::UuidPoolError(e))),
        }
    }

    /// Decides what follows from the entries that the registry holds for the client's actors.
    pub fn announce_actors(&mut self, found: Result<Vec<IdEntry>, UuidPoolError>) -> (r: StartAction)
        ensures
            old(self).announces_actors(found, *final(self), r),
    {
        match found {
            Ok(entries) => {
                self.stage = StartStage::AlgorithmInit;
                StartAction::SendAlgorithmInit(entries)
            },
            Err(e) => self.end(Err(CoordinatorError::UuidPoolError(e))),
        }
    }

    fn add_or_announce(&mut self, client_namespace: &str) -> (r: StartAction)
        ensures
            old(self).adds_or_announces(client_namespace@, *final(self), r),
    {
        if self.actors_left > 0 {
            self.stage = StartStage::Actors;
            return StartAction::AddActor;
        }
        let found = namespace_entries(client_namespace);
        let r = self.announce_client(found);
        proof {
            assert(old(self).announces_client(found, *self, r));
        }
        r
    }

    /// Decides what a step of starting a runtime leads to. Which identifiers are announced depends
    /// on the registry.
    pub fn step(&mut self, coordinator: &mut ClientCoordinator, event: StartEvent) -> (r: StartAction)
        requires
            old(self).expects(*old(coordinator), event),
        ensures
            old(self).leads(*old(coordinator), event, *final(self), *final(coordinator), r),
    {
        match event {
            StartEvent::TransportMade(Ok(_)) => {
                self.stage = StartStage::Scaling;
                StartAction::MakeScaling
            },
            StartEvent::TransportMade(Err(e)) => self.end(Err(CoordinatorError::TransportError(e))),
            StartEvent::ScalingMade(Ok(memory)) => {
                if let Some(plan) = self.plan.take() {
                    coordinator.started(plan, memory);
                }
                self.stage = StartStage::Routers;
                StartAction::ScaleOut { routers: self.router_scale }
            },
            StartEvent::ScaledOut(Ok(routers)) => {
                match &mut coordinator.runtime_params {
                    Some(params) => {
                        params.routers = Some(routers);
                        self.add_or_announce(params.client_namespace.as_str())
                    },
                    None => self.end(Ok(())),
                }
            },
            StartEvent::ActorAdded(Ok(_)) => {
                self.actors_left = self.actors_left - 1;
                match &coordinator.runtime_params {
                    Some(params) => self.add_or_announce(params.client_namespace.as_str()),
                    None => self.end(Ok(())),
                }
            },
            StartEvent::ActorAdded(Err(e)) => self.end(Err(e)),
            StartEvent::ClientIdsSent(Ok(_)) => {
                match &coordinator.runtime_params {
                    Some(params) => {
                        let found = context_entries(
                            params.client_namespace.as_str(),
                            ACTOR_CONTEXT,
                        );
                        let r = self.announce_actors(found);
                        proof {
                            assert(old(self).announces_actors(found, *self, r));
                        }
                        r
                    },
                    None => self.end(Ok(())),
                }
            },
            StartEvent::AlgorithmInitSent(Ok(_)) => self.end(Ok(())),
            StartEvent::ScalingMade(Err(e)) => self.end(Err(CoordinatorError::ScaleManagerError(e))),
            StartEvent::ScaledOut(Err(e)) => self.end(Err(CoordinatorError::ScaleManagerError(e))),
            StartEvent::ClientIdsSent(Err(e)) => self.end(
                Err(CoordinatorError::ScaleManagerError(e)),
            ),
            StartEvent::AlgorithmInitSent(Err(e)) => self.end(
                Err(CoordinatorError::ScaleManagerError(e)),
            ),
        }
    }
}

/// Identifiers are sent only when no actor is left to add, the algorithm is asked for only after
/// they were sent, and a start ends well only after that.
pub proof fn law_actors_come_before_announcements(
    run: StartRun,
    coordinator: ClientCoordinator,
    event: StartEvent,
    after: StartRun,
    coordinator_after: ClientCoordinator,
    r: StartAction,
)
    requires
        run.expects(coordinator, event),
        run.leads(coordinator, event, after, coordinator_after, r),
    ensures
        r is SendClientIds ==> after.actors_left == 0 && after.stage == StartStage::ClientIds,
        r is SendAlgorithmInit ==> run.stage == StartStage::ClientIds && after.actors_left
            == run.actors_left,
        r matches StartAction::End(Ok(_)) ==> run.stage == StartStage::AlgorithmInit,
        r is AddActor ==> after.actors_left > 0,
{
}

/// A start that fails before the runtime is taken over leaves the coordinator as it was.
pub proof fn law_failed_start_leaves_no_runtime(
    run: StartRun,
    coordinator: ClientCoordinator,
    event: StartEvent,
    after: StartRun,
    coordinator_after: ClientCoordinator,
    e: CoordinatorError,
)
    requires
        run.expects(coordinator, event),
        run.leads(coordinator, event, after, coordinator_after, StartAction::End(Err(e))),
        run.stage == StartStage::Transport || run.stage == StartStage::Scaling,
    ensures
        coordinator_after == coordinator,
        after.stage == StartStage::Over,
{
}

/// Whether a message ends the episode of an actor with a reward, or with none, whatever the
/// environment.
pub open spec fn is_flag(m: RoutedMessage, actor_id: u128, reward: Option<Real>) -> bool {
    &&& m.actor_id == actor_id
    &&& m.protocol == RoutingProtocol::FlagLastInference
    &&& m.payload matches RoutedPayload::FlagLastInference { reward: amount, env_id, env_label }
    &&& env_id is None
    &&& env_label is None
    &&& match reward {
        Some(given) => amount == given,
        None => amount.text@ == "0"@,
    }
}

/// What a runtime is started with comes from the configuration and the modes, each thing from its own
/// place: the length of trajectories, the local model, the metrics, the hyperparameters of all
/// algorithms, the path, and the directory of trajectory files, which the modes may give.
pub proof fn law_plans_follow_the_configuration(
    coordinator: ClientCoordinator,
    client_namespace: String,
    algorithm: Algorithm,
    config: ClientConfigLoader,
    config_path: String,
    working_directory: Seq<char>,
    plan: StartPlan,
)
    requires
        coordinator.plans(
            client_namespace,
            algorithm,
            config,
            config_path,
            working_directory,
            plan,
        ),
    ensures
        plan.client_namespace == client_namespace,
        plan.lifecycle.algorithm == algorithm,
        plan.lifecycle.transport_type == coordinator.transport_type,
        plan.lifecycle.config_path == config_path,
        plan.lifecycle.max_traj_length == config.transport_config.max_traj_length,
        plan.lifecycle.metrics_meter_name@ == config.client_config.metrics_meter_name@,
        plan.lifecycle.metrics_endpoint@ == config.client_config.metrics_otlp_endpoint.prefix@
            + config.client_config.metrics_otlp_endpoint.host@ + ":"@
            + config.client_config.metrics_otlp_endpoint.port@,
        plan.lifecycle.init_hyperparameters@ == arguments_of(
            config.client_config.init_hyperparameters,
            None,
        ),
        plan.lifecycle.local_model_path@.root() == working_directory,
        trajectory_files(coordinator.client_modes) matches Some(files)
            ==> plan.lifecycle.trajectory_file_output.file_type == files.file_type
            && plan.lifecycle.trajectory_file_output.directory@ == PathView::Joined(
            Box::new(PathView::Plain(working_directory)),
            Box::new(files.directory@),
        ),
        trajectory_files(coordinator.client_modes) is None
            ==> plan.lifecycle.trajectory_file_output.file_type
            == config.client_config.trajectory_file_output.file_type
            && plan.lifecycle.trajectory_file_output.directory@ == PathView::Joined(
            Box::new(PathView::Plain(working_directory)),
            Box::new(config.client_config.trajectory_file_output.directory@),
        ),
        coordinator.client_modes.actor_training_data_mode is Online ==> plan.dispatchers.training
            && plan.shares_addresses,
        coordinator.client_modes.actor_inference_mode is Server ==> plan.dispatchers.inference
            && plan.shares_addresses,
        coordinator.client_modes.actor_inference_mode is Local
            && coordinator.client_modes.actor_training_data_mode is Disabled
            ==> !plan.shares_addresses && !plan.dispatchers.scaling,
{
    reveal_with_fuel(PathView::root, 3);
}

/// The addresses that a runtime is started with are those of the transport in use, and each is the
/// text of the server that the modes give, or else the configuration.
pub proof fn law_plans_reach_the_servers(
    coordinator: ClientCoordinator,
    client_namespace: String,
    algorithm: Algorithm,
    config: ClientConfigLoader,
    config_path: String,
    working_directory: Seq<char>,
    plan: StartPlan,
)
    requires
        coordinator.plans(
            client_namespace,
            algorithm,
            config,
            config_path,
            working_directory,
            plan,
        ),
        inference_args(coordinator.client_modes) is None,
        training_args(coordinator.client_modes) is None,
    ensures
        ({
            let c = config.transport_config;
            let a = plan.lifecycle.transport_addresses;
            let zi = c.zmq_addresses.inference_addresses;
            let zt = c.zmq_addresses.training_addresses;
            &&& coordinator.transport_type == TransportType::NATS ==> {
                &&& a.nats_inference_address@ == "nats://"@
                    + c.nats_addresses.inference_server_address.host@ + ":"@
                    + c.nats_addresses.inference_server_address.port@
                &&& a.nats_training_address@ == "nats://"@
                    + c.nats_addresses.training_server_address.host@ + ":"@
                    + c.nats_addresses.training_server_address.port@
            }
            &&& coordinator.transport_type == TransportType::ZMQ ==> {
                &&& a.zmq_inference_addresses.inference_server_address@ == "tcp://"@
                    + zi.inference_server_address.host@ + ":"@ + zi.inference_server_address.port@
                &&& a.zmq_inference_addresses.inference_scaling_server_address@ == "tcp://"@
                    + zi.inference_scaling_server_address.host@ + ":"@
                    + zi.inference_scaling_server_address.port@
                &&& a.zmq_training_addresses.agent_listener_address@ == "tcp://"@
                    + zt.agent_listener_address.host@ + ":"@ + zt.agent_listener_address.port@
                &&& a.zmq_training_addresses.model_server_address@ == "tcp://"@
                    + zt.model_server_address.host@ + ":"@ + zt.model_server_address.port@
                &&& a.zmq_training_addresses.trajectory_server_address@ == "tcp://"@
                    + zt.trajectory_server_address.host@ + ":"@ + zt.trajectory_server_address.port@
                &&& a.zmq_training_addresses.training_scaling_server_address@ == "tcp://"@
                    + zt.training_scaling_server_address.host@ + ":"@
                    + zt.training_scaling_server_address.port@
            }
        }),
{
}

/// A runtime that was taken over knows no actor and has no router, and keeps what it was planned
/// with.
pub proof fn law_runtimes_start_without_actors(
    before: ClientCoordinator,
    plan: StartPlan,
    memory: Option<u64>,
    after: ClientCoordinator,
    id: u128,
)
    requires
        before.takes_over(plan, memory, after),
    ensures
        after.runtime_params is Some,
        after.client_modes == before.client_modes,
        after.transport_type == before.transport_type,
        ({
            let params = after.runtime_params->0;
            &&& params.lifecycle == plan.lifecycle
            &&& params.client_namespace == plan.client_namespace
            &&& params.shared_state.client_namespace == plan.client_namespace
            &&& params.shared_state.client_modes == before.client_modes
            &&& params.trajectory_memory == memory
            &&& params.has_scaling_dispatcher == plan.dispatchers.scaling
            &&& params.routers is None
            &&& !params.shared_state.handles().contains_key(id)
            &&& !params.shared_state.inboxes().contains_key(id)
            &&& !params.shared_state.devices().contains_key(id)
            &&& !params.shared_state.models().contains_key(id)
            &&& !params.shared_state.routers().contains_key(id)
            &&& params.shared_state.actor_count == 0
        }),
{
}

/// Scaling that fails changes nothing and is reported; scaling that succeeds changes nothing but
/// which routers there are.
pub proof fn law_scaling_changes_routers_only(
    before: ClientCoordinator,
    operation: RuntimeOperation,
    outcome: Result<Vec<String>, ScaleManagerError>,
    after: ClientCoordinator,
    r: Result<(), CoordinatorError>,
)
    requires
        before.scales(operation, outcome, after, r),
    ensures
        r is Ok <==> before.runtime_params is Some && outcome is Ok,
        r is Err ==> after == before,
        r is Ok ==> {
            &&& after.runtime_params is Some
            &&& after.runtime_params->0.routers == Some(outcome->Ok_0)
            &&& after.runtime_params->0.shared_state == before.runtime_params->0.shared_state
            &&& after.runtime_params->0.lifecycle == before.runtime_params->0.lifecycle
            &&& after.runtime_params->0.client_namespace
                == before.runtime_params->0.client_namespace
            &&& after.client_modes == before.client_modes
        },
        before.runtime_params is Some && outcome is Err ==> r == Err::<(), CoordinatorError>(
            CoordinatorError::ScaleManagerError(outcome->Err_0),
        ),
{
}

/// An actor that was added is known under the identifier that was registered for it, on its device,
/// with its inbox and task, and at the router whose turn it is. Servers are told of it if and only if
/// they are to be, and the algorithm is set up only with that. Without an identifier, a runtime or a
/// router nothing is added.
pub proof fn law_actors_are_added_as_asked(
    before: ClientCoordinator,
    after: ClientCoordinator,
    reserved: Result<u128, UuidPoolError>,
    device: u64,
    load: ModelLoad,
    fresh: ActorTokens,
    send_id: bool,
    send_algorithm_init: bool,
    r: Result<AddedActor, CoordinatorError>,
)
    requires
        before.adds_actor(
            after,
            reserved,
            device,
            load,
            fresh,
            send_id,
            send_algorithm_init,
            r,
        ),
    ensures
        before.runtime_params is None || reserved is Err ==> r is Err && after == before,
        r matches Ok(actor) ==> {
            &&& reserved == Ok::<u128, UuidPoolError>(actor.actor_id)
            &&& after.runtime_params is Some
            &&& before.runtime_params->0.routers is Some
            &&& before.runtime_params->0.routers->0@.len() > 0
            &&& after.runtime_params->0.routers == before.runtime_params->0.routers
            &&& after.runtime_params->0.lifecycle == before.runtime_params->0.lifecycle
            &&& after.client_modes == before.client_modes
            &&& (actor.announce is Some) == send_id
            &&& actor.announce matches Some(entry) ==> entry.id == actor.actor_id
                && entry.namespace@ == before.runtime_params->0.client_namespace@
                && entry.context@ == "actor"@
            &&& actor.init_algorithm ==> send_id && send_algorithm_init
            &&& send_id && send_algorithm_init ==> actor.init_algorithm
            &&& ({
                let state = after.runtime_params->0.shared_state;
                let names = before.runtime_params->0.routers->0@;
                let turn = before.runtime_params->0.shared_state.inboxes().len() as int
                    % names.len() as int;
                &&& state.handles().contains_key(actor.actor_id)
                &&& state.handles()[actor.actor_id] == fresh.handle
                &&& state.inboxes().contains_key(actor.actor_id)
                &&& state.inboxes()[actor.actor_id] == fresh.inbox
                &&& state.devices().contains_key(actor.actor_id)
                &&& state.devices()[actor.actor_id] == device
                &&& state.routers().contains_key(actor.actor_id)
                &&& state.routers()[actor.actor_id] == names[turn]@
            })
        },
{
}

/// Whatever fails ends the start with that failure, and whatever succeeds lets it go on with the next
/// stage; only the last success ends it well. As many routers are asked for as were wanted, and the
/// ones that came are noted.
pub proof fn law_starts_go_on_until_something_fails(
    run: StartRun,
    coordinator: ClientCoordinator,
    event: StartEvent,
    after: StartRun,
    coordinator_after: ClientCoordinator,
    r: StartAction,
)
    requires
        run.expects(coordinator, event),
        run.leads(coordinator, event, after, coordinator_after, r),
    ensures
        event matches StartEvent::TransportMade(Err(e)) ==> r == StartAction::End(
            Err(CoordinatorError::TransportError(e)),
        ),
        event matches StartEvent::ScalingMade(Err(e)) ==> r == StartAction::End(
            Err(CoordinatorError::ScaleManagerError(e)),
        ),
        event matches StartEvent::ScaledOut(Err(e)) ==> r == StartAction::End(
            Err(CoordinatorError::ScaleManagerError(e)),
        ),
        event matches StartEvent::ActorAdded(Err(e)) ==> r == StartAction::End(Err(e)),
        event matches StartEvent::ClientIdsSent(Err(e)) ==> r == StartAction::End(
            Err(CoordinatorError::ScaleManagerError(e)),
        ),
        event matches StartEvent::AlgorithmInitSent(Err(e)) ==> r == StartAction::End(
            Err(CoordinatorError::ScaleManagerError(e)),
        ),
        event matches StartEvent::TransportMade(Ok(_)) ==> r is MakeScaling,
        event matches StartEvent::ScalingMade(Ok(_)) ==> r == (StartAction::ScaleOut {
            routers: run.router_scale,
        }) && coordinator_after.runtime_params is Some,
        event matches StartEvent::ScaledOut(Ok(routers))
            ==> coordinator_after.runtime_params->0.routers == Some(routers) && (run.actors_left > 0
            ==> r is AddActor && after.actors_left == run.actors_left) && (run.actors_left == 0
            ==> r is SendClientIds || r is End),
        event matches StartEvent::ActorAdded(Ok(_)) ==> after.actors_left == run.actors_left - 1 && (
        run.actors_left > 1 ==> r is AddActor) && (run.actors_left == 1 ==> r is SendClientIds
            || r is End),
        event matches StartEvent::ClientIdsSent(Ok(_)) ==> r is SendAlgorithmInit || r is End,
        event matches StartEvent::AlgorithmInitSent(Ok(_)) ==> r == StartAction::End(Ok(())),
        r is End ==> after.stage == StartStage::Over,
        r matches StartAction::End(Ok(_)) ==> event is AlgorithmInitSent,
        r matches StartAction::SendClientIds(entries) ==> forall|i: int|
            0 <= i < entries@.len() ==> (#[trigger] entries@[i]).namespace@
                == coordinator.runtime_params->0.client_namespace@,
        r matches StartAction::SendAlgorithmInit(entries) ==> forall|i: int|
            0 <= i < entries@.len() ==> (#[trigger] entries@[i]).namespace@
                == coordinator.runtime_params->0.client_namespace@ && entries@[i].context@
                == "actor"@,
{
}

/// The end of an episode is told to the actor that it is of, with the reward given, or with none.
pub proof fn law_flags_carry_the_reward(m: RoutedMessage, actor_id: u128, reward: Option<Real>)
    requires
        is_flag(m, actor_id, reward),
    ensures
        m.actor_id == actor_id,
        m.protocol == RoutingProtocol::FlagLastInference,
        m.payload is FlagLastInference,
        reward is Some ==> m.payload->FlagLastInference_reward == reward->0,
        reward is None ==> m.payload->FlagLastInference_reward.text@ == "0"@,
{
}

/// A model is brought only to actors that are known and, where a list is given, on it; where actors do
/// not share models to all of those.
pub proof fn law_models_reach_the_actors_meant(
    state: StateManager,
    asked: Option<Seq<u128>>,
    targets: Seq<u128>,
    id: u128,
)
    requires
        are_targets(state, asked, targets),
    ensures
        targets.contains(id) ==> state.handles().contains_key(id),
        targets.contains(id) && asked is Some ==> asked->0.contains(id),
        !state.shares() && state.handles().contains_key(id) && (asked is None || asked->0.contains(
            id,
        )) ==> targets.contains(id),
{
    let sorted = choose|sorted: Seq<u128>|
        #![trigger representatives(state.shares(), state.devices(), sorted, sorted.len() as int)]
        lists_wanted(state.handles(), asked, sorted) && targets == representatives(
            state.shares(),
            state.devices(),
            sorted,
            sorted.len() as int,
        );
    law_dispatch_targets_cover_actors(state.shares(), state.devices(), sorted);
    assert(targets.contains(id) ==> sorted.contains(id));
    if !state.shares() && sorted.contains(id) {
        let i = choose|i: int| 0 <= i < sorted.len() && sorted[i] == id;
        assert(canonical(false, state.devices(), sorted[i], sorted) == id);
    }
}

/// A removal is reported as it went: with the task to abort in any case, with the refusal where there
/// was one, and with identifiers only where servers are to know them.
pub proof fn law_removals_are_reported(
    removed: RemovedActor,
    send_ids: bool,
    client_namespace: Seq<char>,
    r: (Option<u64>, Result<Option<Vec<IdEntry>>, CoordinatorError>),
)
    requires
        reports_removal(removed, send_ids, client_namespace, r),
    ensures
        r.0 == removed.handle,
        removed.outcome is Err ==> r.1 is Err,
        removed.outcome is Ok && !send_ids ==> r.1 is Ok && r.1->Ok_0 is None,
        r.1 is Ok && send_ids ==> r.1->Ok_0 is Some,
        r.1 is Ok && send_ids ==> forall|i: int|
            0 <= i < r.1->Ok_0->0@.len() ==> (#[trigger] r.1->Ok_0->0@[i]).namespace@
                == client_namespace && r.1->Ok_0->0@[i].context@ == "actor"@,
{
}

/// Without a runtime each operation is refused in its own words, and those that have none by saying
/// that there is none.
pub proof fn law_missing_runtimes_are_reported(operation: RuntimeOperation, e: CoordinatorError)
    requires
        operation.is_missing_runtime(e),
    ensures
        operation == RuntimeOperation::RequestAction ==> (e matches CoordinatorError::ScaleManagerError(
            ScaleManagerError::GetRouterRuntimeParamsError(m),
        ) && m@ == "[Coordinator] No runtime instance to request_action..."@),
        operation == RuntimeOperation::FlagLastAction ==> (e matches CoordinatorError::ScaleManagerError(
            ScaleManagerError::GetRouterRuntimeParamsError(m),
        ) && m@ == "[Coordinator] No runtime instance to flag_last_action..."@),
        operation == RuntimeOperation::GetModelVersion ==> (e matches CoordinatorError::ScaleManagerError(
            ScaleManagerError::GetRouterRuntimeParamsError(m),
        ) && m@ == "[Coordinator] No runtime instance to get_model_version..."@),
        operation == RuntimeOperation::GetTrajectoryMemory ==> (e matches CoordinatorError::ScaleManagerError(
            ScaleManagerError::GetRouterRuntimeParamsError(m),
        ) && m@ == "[Coordinator] No runtime instance to get_trajectory_memory..."@),
        operation == RuntimeOperation::ScaleOut ==> (e matches CoordinatorError::ScaleManagerError(
            ScaleManagerError::GetRouterRuntimeParamsError(m),
        ) && m@ == "[Coordinator] No runtime instance to scale_out..."@),
        operation == RuntimeOperation::ScaleIn ==> (e matches CoordinatorError::ScaleManagerError(
            ScaleManagerError::GetRouterRuntimeParamsError(m),
        ) && m@ == "[Coordinator] No runtime instance to scale_in..."@),
        operation == RuntimeOperation::GetConfig ==> (e matches CoordinatorError::StateManagerError(
            StateManagerError::GetConfigError(m),
        ) && m@ == "[Coordinator] No runtime instance to get_config..."@),
        operation == RuntimeOperation::SetConfigPath ==> (e matches CoordinatorError::StateManagerError(
            StateManagerError::SetConfigError(m),
        ) && m@ == "[Coordinator] No runtime instance to set_config_path..."@),
        operation == RuntimeOperation::NewActor ==> (e matches CoordinatorError::StateManagerError(
            StateManagerError::NewActorError(m),
        ) && m@ == "[Coordinator] No runtime instance to new_actor..."@),
        operation == RuntimeOperation::RemoveActor ==> (e matches CoordinatorError::StateManagerError(
            StateManagerError::RemoveActorError(m),
        ) && m@ == "[Coordinator] No runtime instance to remove_actor..."@),
        operation == RuntimeOperation::SetActorId ==> (e matches CoordinatorError::StateManagerError(
            StateManagerError::SetActorIdError(m),
        ) && m@ == "[Coordinator] No runtime instance to set_actor_id..."@),
        operation == RuntimeOperation::RunEnv ==> (e matches CoordinatorError::StateManagerError(
            StateManagerError::StepEnvError(m),
        ) && m@ == "[Coordinator] No runtime instance to step_env..."@),
        operation == RuntimeOperation::SetEnv ==> (e matches CoordinatorError::StateManagerError(
            StateManagerError::SetEnvError(m),
        ) && m@ == "[Coordinator] No runtime instance to set_env..."@),
        operation == RuntimeOperation::GetEnvCount ==> (e matches CoordinatorError::StateManagerError(
            StateManagerError::GetEnvCountError(m),
        ) && m@ == "[Coordinator] No runtime instance to get_env_count..."@),
        operation == RuntimeOperation::IncreaseEnvCount ==> (e matches CoordinatorError::StateManagerError(
            StateManagerError::IncreaseEnvCountError(m),
        ) && m@ == "[Coordinator] No runtime instance to increase_env_count..."@),
        operation == RuntimeOperation::DecreaseEnvCount ==> (e matches CoordinatorError::StateManagerError(
            StateManagerError::DecreaseEnvCountError(m),
        ) && m@ == "[Coordinator] No runtime instance to decrease_env_count..."@),
        operation == RuntimeOperation::RemoveEnv ==> (e matches CoordinatorError::StateManagerError(
            StateManagerError::RemoveEnvError(m),
        ) && m@ == "[Coordinator] No runtime instance to remove_env..."@),
        operation == RuntimeOperation::UpdateModel || operation == RuntimeOperation::SendClientIds
            || operation == RuntimeOperation::SendAlgorithmInit || operation
            == RuntimeOperation::SendInferenceModelInit || operation == RuntimeOperation::Shutdown
            ==> e is NoRuntimeInstanceError,
{
}

/// Without routers no actor can be assigned to one, and the report says whether there never were any
/// or none is left.
pub proof fn law_actors_need_routers(actors: nat, r: Result<String, CoordinatorError>)
    ensures
        is_assigned(None, actors, r) ==> (r matches Err(
            CoordinatorError::ScaleManagerError(ScaleManagerError::GetRouterRuntimeParamsError(m)),
        ) && m@ == "[Coordinator] No routers available for actor assignment"@),
        is_assigned(Some(Seq::empty()), actors, r) ==> (r matches Err(
            CoordinatorError::ScaleManagerError(ScaleManagerError::GetRouterRuntimeParamsError(m)),
        ) && m@ == "[Coordinator] No routers available"@),
{
}

/// Of the answers that fail the first is reported, and whether the question was not sent or not
/// answered.
pub proof fn law_the_first_failure_is_reported(
    ids: Seq<u128>,
    replies: Seq<VersionReply>,
    versions: Result<Seq<(u128, i64)>, CoordinatorError>,
    answers: Seq<(u128, ActionReply)>,
    actions: Result<Seq<(u128, u64)>, CoordinatorError>,
    k: int,
)
    ensures
        versions_mean(ids, replies, versions) && 0 <= k < replies.len() && replies[k] !is Version
            && (forall|i: int| 0 <= i < k ==> #[trigger] replies[i] is Version) ==> {
            &&& replies[k] matches VersionReply::NotSent(why) ==> versions == Err::<
                Seq<(u128, i64)>,
                CoordinatorError,
            >(
                CoordinatorError::ScaleManagerError(
                    ScaleManagerError::SendModelVersionMessageError(why),
                ),
            )
            &&& replies[k] matches VersionReply::NotAnswered(why) ==> versions == Err::<
                Seq<(u128, i64)>,
                CoordinatorError,
            >(
                CoordinatorError::ScaleManagerError(
                    ScaleManagerError::ReceiveModelVersionResponseError(why),
                ),
            )
        },
        actions_mean(answers, actions) && 0 <= k < answers.len() && answers[k].1 !is Action && (
        forall|i: int| 0 <= i < k ==> (#[trigger] answers[i]).1 is Action) ==> (answers[k].1 matches
            ActionReply::NotAnswered(why) && actions == Err::<Seq<(u128, u64)>, CoordinatorError>(
            CoordinatorError::ScaleManagerError(ScaleManagerError::ReceiveActionResponseError(why)),
        )),
{
    if versions_mean(ids, replies, versions) && 0 <= k < replies.len() && replies[k] !is Version && (
    forall|i: int| 0 <= i < k ==> #[trigger] replies[i] is Version) {
        law_versions_are_told_by_all_or_not_at_all(ids, replies, versions);
        let e = versions->Err_0;
        let j = choose|j: int| #[trigger] first_unanswered(replies, j, e);
        if j < k {
            assert(replies[j] is Version);
        }
        if k < j {
            assert(replies[k] is Version);
        }
    }
    if actions_mean(answers, actions) && 0 <= k < answers.len() && answers[k].1 !is Action && (
    forall|i: int| 0 <= i < k ==> (#[trigger] answers[i]).1 is Action) {
        law_actions_come_from_all_or_not_at_all(answers, actions);
        let e = actions->Err_0;
        let j = choose|j: int| #[trigger] first_without_action(answers, j, e);
        if j < k {
            assert(answers[j].1 is Action);
        }
        if k < j {
            assert(answers[k].1 is Action);
        }
    }
}

/// What is registered for a client is told apart by its context: its actors, its receivers and the
/// clients of the two transports each have one of their own. A channel holds 256000 messages.
pub proof fn law_contexts_tell_entries_apart()
    ensures
        ACTOR_CONTEXT@ == "actor"@,
        crate::receiver::RECEIVER_CONTEXT@ == "receiver"@,
        crate::zmq::ZMQ_CLIENT_CONTEXT@ == "zmq-client"@,
        crate::interface::NATS_CLIENT_CONTEXT@ == "nats-client"@,
        crate::zmq::SOCKET_NAMESPACE@ == "client"@,
        ACTOR_CONTEXT@ != crate::receiver::RECEIVER_CONTEXT@,
        ACTOR_CONTEXT@ != crate::zmq::ZMQ_CLIENT_CONTEXT@,
        ACTOR_CONTEXT@ != crate::interface::NATS_CLIENT_CONTEXT@,
        crate::receiver::RECEIVER_CONTEXT@ != crate::zmq::ZMQ_CLIENT_CONTEXT@,
        crate::receiver::RECEIVER_CONTEXT@ != crate::interface::NATS_CLIENT_CONTEXT@,
        crate::zmq::ZMQ_CLIENT_CONTEXT@ != crate::interface::NATS_CLIENT_CONTEXT@,
        CHANNEL_THROUGHPUT == 256_000,
{
    reveal_strlit("actor");
    reveal_strlit("receiver");
    reveal_strlit("zmq-client");
    reveal_strlit("nats-client");
    assert("actor"@.len() == 5 && "receiver"@.len() == 8 && "zmq-client"@.len() == 10
        && "nats-client"@.len() == 11);
}

/// The actors that are reported for a client are its own: under its namespace, in the context of
/// actors, and none of them twice.
pub proof fn law_reported_actors_are_the_clients_own(
    client_namespace: Seq<char>,
    r: Result<Vec<IdEntry>, CoordinatorError>,
    i: int,
    j: int,
)
    requires
        reports_actors(client_namespace, r),
    ensures
        r matches Ok(entries) ==> {
            &&& 0 <= i < entries@.len() ==> entries@[i].namespace@ == client_namespace
                && entries@[i].context@ == "actor"@
            &&& 0 <= i < j < entries@.len() ==> entries@[i].id != entries@[j].id
        },
        r matches Err(e) ==> e is UuidPoolError,
{
}

/// A list of actors is taken as it is, and no list means all of them.
pub proof fn law_lists_are_taken_as_given(ids: Vec<u128>)
    ensures
        listed(Some(&ids)) == Some(ids@),
        listed(None) is None,
{
}

} // verus!
