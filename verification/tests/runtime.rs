//! The runtime of a client: its lifecycle, its actors, what it receives and how it is coordinated.

use active_uuid_registry::interface::{
    add_id, list_ids, reserve_id_with, reserve_namespace, reserve_owned_namespace,
};
use active_uuid_registry::registry_uuid::Uuid;
use active_uuid_registry::UuidPoolError;
use relayrl_framework::actor::{
    Actor, ActorTask, HandshakeAction, HandshakeEvent, ModelInstallation, RefreshAction,
    RefreshEvent,
};
use relayrl_framework::configuration::{
    ClientConfigBuildParams, ClientConfigBuilder, ClientConfigLoader, OtlpEndpointParams,
};
use relayrl_framework::coordinator::{
    action_request, action_request_sent, actor_slot, after_removal, apply_address_args, assigned_router,
    chosen_config_path, client_namespace, directory_error, dispatch_model_updates, dispatchers,
    flag_last_action_sent, gather_actions,
    model_update_sent, open_namespace, request_model_versions, serialization_directory,
    shares_addresses, trajectory_file_params, version_request, ActionReply, ClientCoordinator,
    CoordinatorParams, DispatcherPlan, RuntimeOperation, ShutdownStep, StartAction, StartEvent,
    StartPlan, StartRun, VersionReply,
};
use relayrl_framework::engine::{InferenceAction, InferenceEngine, InferenceEvent};
use relayrl_framework::entries::entry_text;
use relayrl_framework::errors::{
    ActorError, ClientConfigError, CoordinatorError, LifecycleManagerError, RouterError,
    ScaleManagerError, StateManagerError, TransportError, TransportReceiverError,
};
use relayrl_framework::hyperparameters::Algorithm;
use relayrl_framework::lifecycle::{
    construct_local_model_path, construct_metrics_otlp_endpoint, construct_trajectory_file_output,
    construct_transport_addresses, LifecycleManager, WatchAction, WatchEvent,
};
use relayrl_framework::messages::{RoutedMessage, RoutedPayload, RoutingProtocol};
use relayrl_framework::modes::{
    ActorInferenceMode, ActorTrainingDataMode, ClientModes, InferenceAddressesArgs,
    InferenceServerParams, LocalTrajectoryFileParams, LocalTrajectoryFileType, ModelMode,
    TrainingAddressesArgs, TrainingServerParams, TransportType, ZmqTrainingAddressArgs,
};
use relayrl_framework::numbers::Real;
use relayrl_framework::paths::FilePath;
use relayrl_framework::receiver::{
    prepare_transport_model_update_for_dispatch, receiver_entry, ClientTransportModelReceiver,
    ReceiverAction, ReceiverEvent, RECEIVER_CONTEXT,
};
use relayrl_framework::registry::IdEntry;
use relayrl_framework::state::{
    ActorTokens, ModelLoad, ModelSource, RemovedActor, StateManager, ACTOR_CONTEXT,
};
use relayrl_framework::text::{
    bool_text, decimal_text, has_char, join_texts, parse_i64, parse_u32, same_text, split_on,
    trim_text, IntegerFault,
};
use relayrl_framework::transport_config::{
    LocalModelModuleParams, NetworkParams, TransportConfigBuildParams, TransportConfigBuilder,
};
use relayrl_framework::zmq::build_routed_model_update_message;
use std::collections::HashMap;
use std::path::PathBuf;

const CPU: u64 = 0;
const CWD: &str = "/work";

fn independent_modes() -> ClientModes {
    ClientModes {
        actor_inference_mode: ActorInferenceMode::Local(ModelMode::Independent),
        actor_training_data_mode: ActorTrainingDataMode::Disabled,
    }
}

fn shared_modes() -> ClientModes {
    ClientModes {
        actor_inference_mode: ActorInferenceMode::Local(ModelMode::Shared),
        actor_training_data_mode: ActorTrainingDataMode::Disabled,
    }
}

fn server_modes() -> ClientModes {
    ClientModes {
        actor_inference_mode: ActorInferenceMode::Server(InferenceServerParams {
            inference_addresses: None,
        }),
        actor_training_data_mode: ActorTrainingDataMode::Disabled,
    }
}

fn nothing_loaded() -> ModelLoad {
    ModelLoad { source: ModelSource::Nowhere, failed: false }
}

fn tokens(n: u64) -> ActorTokens {
    ActorTokens { inbox: 100 + n, model: 200 + n, handle: 300 + n }
}

fn three_ids() -> Vec<u128> {
    vec![
        0xd0000000_0000_0000_0000_000000000001,
        0x10000000_0000_0000_0000_000000000002,
        0x70000000_0000_0000_0000_000000000003,
    ]
}

fn state_with_actors(namespace: &str, modes: ClientModes, ids: &[u128]) -> StateManager {
    let mut state = StateManager::new(namespace.to_string(), modes);
    for (n, id) in ids.iter().enumerate() {
        let added = state.new_actor(
            *id,
            "router-a".to_string(),
            CPU,
            nothing_loaded(),
            tokens(n as u64),
        );
        assert!(added.outcome.is_ok());
    }
    state
}

fn make_lifecycle_manager() -> LifecycleManager {
    let config = ClientConfigLoader::load_config("client.json", None);
    LifecycleManager::new(
        Algorithm::REINFORCE,
        &config,
        "client.json".to_string(),
        TransportType::ZMQ,
        CWD,
        5,
        10,
    )
}

fn make_coordinator() -> ClientCoordinator {
    ClientCoordinator::new(TransportType::ZMQ, independent_modes())
}

fn make_runtime_coordinator(name: &str, modes: ClientModes) -> ClientCoordinator {
    let client_namespace = format!("test-coordinator-{}", name);
    reserve_namespace(&client_namespace);
    let mut coordinator = ClientCoordinator::new(TransportType::ZMQ, modes.clone());
    coordinator.runtime_params = Some(CoordinatorParams {
        client_namespace: client_namespace.clone(),
        lifecycle: make_lifecycle_manager(),
        shared_state: StateManager::new(client_namespace, modes),
        routers: None,
        trajectory_memory: None,
        has_scaling_dispatcher: false,
    });
    coordinator
}

fn make_model_update(actor_id: u128, version: i64) -> RoutedMessage {
    RoutedMessage {
        actor_id,
        protocol: RoutingProtocol::ModelUpdate,
        payload: RoutedPayload::ModelUpdate { model_bytes: vec![1, 2, 3], version },
    }
}

fn build_msg(actor_id: u128, protocol: RoutingProtocol, payload: RoutedPayload) -> RoutedMessage {
    RoutedMessage { actor_id, protocol, payload }
}

fn make_actor() -> Actor {
    Actor::new("test-actor-namespace".to_string(), 0xabc, false, false)
}

// Lifecycle.

fn path_buf(path: &FilePath) -> PathBuf {
    match path {
        FilePath::Plain(text) => PathBuf::from(text),
        FilePath::Joined(base, part) => path_buf(base).join(path_buf(part)),
    }
}

fn path_text(path: &FilePath) -> String {
    path_buf(path).to_str().unwrap().to_string()
}

#[test]
fn construct_local_model_path_joins_components() {
    let params = LocalModelModuleParams {
        directory: "model_dir".to_string(),
        model_name: "my_model".to_string(),
        format: "pt".to_string(),
    };
    let path_str = path_text(&construct_local_model_path(CWD, &params));
    assert!(
        path_str.contains("model_dir"),
        "Path should contain directory component"
    );
    assert!(
        path_str.contains("my_model"),
        "Path should contain model_name component"
    );
    assert!(
        path_str.contains(".pt"),
        "Path should contain formatted extension"
    );
    assert_eq!(path_str, "/work/model_dir/my_model.pt");
}

#[test]
fn construct_local_model_path_uses_cwd_as_root() {
    let params = LocalModelModuleParams {
        directory: "subdir".to_string(),
        model_name: "net".to_string(),
        format: "mpk".to_string(),
    };
    let path = path_buf(&construct_local_model_path(CWD, &params));
    assert!(
        path.is_absolute(),
        "Returned path should be absolute (rooted at cwd)"
    );
}

#[test]
fn local_model_paths_have_fallbacks() {
    let mut params = LocalModelModuleParams {
        directory: String::new(),
        model_name: String::new(),
        format: String::new(),
    };
    assert_eq!(
        path_text(&construct_local_model_path(CWD, &params)),
        "/work/model_module/client_model.pt"
    );
    params.format = "..onnx".to_string();
    params.directory = "/models".to_string();
    assert_eq!(
        path_text(&construct_local_model_path(CWD, &params)),
        "/models/client_model.onnx"
    );
    params.format = ".".to_string();
    assert_eq!(
        path_text(&construct_local_model_path(CWD, &params)),
        "/models/client_model."
    );
}

#[test]
fn paths_keep_what_they_are_joined_from() {
    let params = LocalModelModuleParams {
        directory: "C:\\models".to_string(),
        model_name: "net".to_string(),
        format: "pt".to_string(),
    };
    match construct_local_model_path(CWD, &params) {
        FilePath::Joined(directory, file) => {
            assert!(matches!(*file, FilePath::Plain(name) if name == "net.pt"));
            match *directory {
                FilePath::Joined(base, part) => {
                    assert!(matches!(*base, FilePath::Plain(text) if text == CWD));
                    assert!(matches!(*part, FilePath::Plain(text) if text == "C:\\models"));
                }
                _ => panic!("expected a joined path"),
            }
        }
        _ => panic!("expected a joined path"),
    }
    let empty = FilePath::of("").join(FilePath::of(""));
    assert!(empty.is_empty());
    assert_eq!(path_text(&empty), "");
    for (base, part) in [("a", ""), ("", "b"), ("a", "b")] {
        assert!(!FilePath::of(base).join(FilePath::of(part)).is_empty());
    }
}

#[test]
fn construct_trajectory_file_output_joins_directory_with_cwd() {
    let params = LocalTrajectoryFileParams {
        directory: FilePath::of("experiment_data"),
        file_type: LocalTrajectoryFileType::Arrow,
    };
    let result = construct_trajectory_file_output(CWD, &params);
    assert!(
        path_text(&result.directory).contains("experiment_data"),
        "Result directory should contain the given subdirectory"
    );
    assert!(
        path_buf(&result.directory).is_absolute(),
        "Result directory should be absolute"
    );
    assert!(
        matches!(result.file_type, LocalTrajectoryFileType::Arrow),
        "File type should be preserved"
    );
}

#[test]
fn construct_trajectory_file_output_preserves_file_type() {
    let params = LocalTrajectoryFileParams {
        directory: FilePath::of("out"),
        file_type: LocalTrajectoryFileType::Csv,
    };
    let result = construct_trajectory_file_output(CWD, &params);
    assert!(matches!(result.file_type, LocalTrajectoryFileType::Csv));
}

#[test]
fn set_max_traj_length_round_trip() {
    let mut lm = make_lifecycle_manager();
    lm.set_max_traj_length(99);
    assert_eq!(lm.get_max_traj_length(), 99);
}

#[test]
fn set_max_traj_length_overwrites_previous_value() {
    let mut lm = make_lifecycle_manager();
    lm.set_max_traj_length(10);
    lm.set_max_traj_length(200);
    assert_eq!(lm.get_max_traj_length(), 200);
}

#[test]
fn set_local_model_path_round_trip() {
    let mut lm = make_lifecycle_manager();
    let params = LocalModelModuleParams {
        directory: "test_dir".to_string(),
        model_name: "my_net".to_string(),
        format: "pt".to_string(),
    };
    lm.set_local_model_path(CWD, &params);
    let path_str = path_text(lm.get_local_model_path());
    assert!(
        path_str.contains("test_dir"),
        "path should contain directory"
    );
    assert!(
        path_str.contains("my_net"),
        "path should contain model name"
    );
    assert!(path_str.contains(".pt"), "path should contain extension");
}

#[test]
fn set_trajectory_file_path_round_trip() {
    let mut lm = make_lifecycle_manager();
    let params = LocalTrajectoryFileParams {
        directory: FilePath::of("exp_output"),
        file_type: LocalTrajectoryFileType::Arrow,
    };
    lm.set_trajectory_file_path(CWD, &params);
    let output = lm.get_trajectory_file_output();
    assert!(
        path_text(&output.directory).contains("exp_output"),
        "directory should be preserved"
    );
    assert!(
        matches!(output.file_type, LocalTrajectoryFileType::Arrow),
        "file type should be Arrow"
    );
}

#[test]
fn set_trajectory_file_path_csv_preserved() {
    let mut lm = make_lifecycle_manager();
    let params = LocalTrajectoryFileParams {
        directory: FilePath::of("csv_out"),
        file_type: LocalTrajectoryFileType::Csv,
    };
    lm.set_trajectory_file_path(CWD, &params);
    let output = lm.get_trajectory_file_output();
    assert!(matches!(output.file_type, LocalTrajectoryFileType::Csv));
}

#[test]
fn lifecycles_reflect_their_configuration() {
    let mut lm = make_lifecycle_manager();
    assert_eq!(lm.get_config_path(), "client.json");
    assert_eq!(path_text(lm.get_local_model_path()), "/work/model_module/model.pt");
    assert_eq!(path_text(&lm.get_trajectory_file_output().directory), "/work/experiment_data");
    assert_eq!(lm.get_metrics_args().0, "relayrl-client");
    assert_eq!(lm.get_metrics_args().1, "http://127.0.0.1:4317");
    assert_eq!(lm.get_init_hyperparameters().len(), 1);
    assert_eq!(
        lm.get_transport_addresses().zmq_training_addresses.agent_listener_address,
        "tcp://127.0.0.1:7779"
    );
    assert_eq!(lm.get_transport_addresses().nats_training_address, "");

    let mut changed = ClientConfigBuilder::build_default();
    changed.transport_config.max_traj_length = 17;
    changed.transport_config.zmq_addresses.training_addresses.agent_listener_address =
        NetworkParams { host: "far".to_string(), port: "1".to_string() };
    lm.handle_config_change(&changed, "/other/");
    assert_eq!(lm.get_max_traj_length(), 17);
    assert_eq!(path_text(lm.get_local_model_path()), "/other/model_module/model.pt");
    assert_eq!(
        lm.get_transport_addresses().zmq_training_addresses.agent_listener_address,
        "tcp://far:1"
    );
    assert!(lm.get_init_hyperparameters().contains_key(&Algorithm::REINFORCE));
}

#[test]
fn only_the_transport_in_use_has_addresses() {
    let config = TransportConfigBuilder::build_default();
    let nats = construct_transport_addresses(&config, &TransportType::NATS);
    assert_eq!(nats.nats_inference_address, "nats://127.0.0.1:50050");
    assert_eq!(nats.nats_training_address, "nats://127.0.0.1:50051");
    assert_eq!(nats.zmq_inference_addresses.inference_server_address, "");
    assert_eq!(nats.zmq_training_addresses.model_server_address, "");
    let endpoint = OtlpEndpointParams {
        prefix: "https://".to_string(),
        host: "h".to_string(),
        port: "1".to_string(),
    };
    assert_eq!(construct_metrics_otlp_endpoint(&endpoint), "https://h:1");
}

#[test]
fn newer_configurations_are_reloaded() {
    let mut lm = make_lifecycle_manager();
    assert_eq!(
        lm.watch_step(10, WatchEvent::Tick { modified: Some(5) }),
        WatchAction::Wait
    );
    assert_eq!(
        lm.watch_step(10, WatchEvent::Tick { modified: None }),
        WatchAction::Wait
    );
    assert_eq!(
        lm.watch_step(10, WatchEvent::Tick { modified: Some(6) }),
        WatchAction::Reload { interval: None }
    );
    assert_eq!(
        lm.watch_step(7, WatchEvent::Tick { modified: Some(8) }),
        WatchAction::Reload { interval: Some(10) }
    );
    assert_eq!(
        lm.watch_step(10, WatchEvent::Tick { modified: Some(8) }),
        WatchAction::Wait
    );
    assert_eq!(
        lm.watch_step(10, WatchEvent::Interrupted),
        WatchAction::SignalShutdownAndStop
    );
    assert_eq!(
        lm.watch_step(10, WatchEvent::ShutdownRequested),
        WatchAction::SignalShutdownAndStop
    );
}

#[test]
fn lifecycle_errors_describe_themselves() {
    assert_eq!(
        LifecycleManagerError::FileMetadataError("x".to_string()).message(),
        "File metadata error: x"
    );
    assert_eq!(
        LifecycleManagerError::SystemTimeError("x".to_string()).message(),
        "System time error: x"
    );
    assert_eq!(
        LifecycleManagerError::SubscribeShutdownError("x".to_string()).message(),
        "Subscribe shutdown error: x"
    );
    assert_eq!(
        LifecycleManagerError::SendShutdownSignalError("x".to_string()).message(),
        "Send shutdown signal error: x"
    );
    assert_eq!(
        LifecycleManagerError::ConfigError("x".to_string()).message(),
        "Config error: x"
    );
}

// What is received.

#[test]
fn no_entries_found_displays_non_empty_string() {
    let err = TransportReceiverError::NoEntriesFound;
    let s = err.message().unwrap();
    assert!(!s.is_empty(), "Display output should be non-empty");
}

#[test]
fn uuid_pool_error_wraps_source() {
    let source = UuidPoolError::FailedToFindUuidInPoolError("test-uuid".to_string());
    let err = TransportReceiverError::from(source.clone());
    assert!(matches!(err, TransportReceiverError::UuidPoolError(_)));
    let display = err.message().unwrap();
    assert!(!display.is_empty());
}

#[test]
fn uuid_pool_error_display_contains_source_message() {
    let source = UuidPoolError::FailedToFindUuidInPoolError("my-id".to_string());
    let err = TransportReceiverError::from(source);
    let display = err.message().unwrap();
    assert!(display.contains("my-id"));
}

#[test]
fn shared_mode_model_updates_remap_to_canonical_actor() {
    let actor_ids = three_ids();
    let state_manager = state_with_actors("test-receiver-remap", shared_modes(), &actor_ids);
    let expected_actor_id = actor_ids
        .iter()
        .min_by_key(|actor_id| Uuid::from_u128(**actor_id).to_string())
        .copied()
        .unwrap();
    let source_actor_id = actor_ids
        .iter()
        .copied()
        .find(|actor_id| *actor_id != expected_actor_id)
        .unwrap();
    let mut last_forwarded_model_versions = HashMap::new();

    let forwarded_message = prepare_transport_model_update_for_dispatch(
        &state_manager,
        make_model_update(source_actor_id, 7),
        &mut last_forwarded_model_versions,
    )
    .expect("expected model update to be forwarded");

    assert_eq!(forwarded_message.actor_id, expected_actor_id);
    assert!(matches!(
        forwarded_message.payload,
        RoutedPayload::ModelUpdate { version, .. } if version == 7
    ));
}

#[test]
fn shared_mode_model_updates_deduplicate_same_representative_version() {
    let actor_ids: Vec<u128> = three_ids()[..2].to_vec();
    let state_manager = state_with_actors("test-receiver-dedup", shared_modes(), &actor_ids);
    let expected_actor_id = actor_ids
        .iter()
        .min_by_key(|actor_id| Uuid::from_u128(**actor_id).to_string())
        .copied()
        .unwrap();
    let mut last_forwarded_model_versions = HashMap::new();

    let first_forward = prepare_transport_model_update_for_dispatch(
        &state_manager,
        make_model_update(actor_ids[0], 11),
        &mut last_forwarded_model_versions,
    )
    .expect("expected first model update to be forwarded");
    assert_eq!(first_forward.actor_id, expected_actor_id);

    let duplicate_forward = prepare_transport_model_update_for_dispatch(
        &state_manager,
        make_model_update(actor_ids[1], 11),
        &mut last_forwarded_model_versions,
    );
    assert!(duplicate_forward.is_none());

    let newer_forward = prepare_transport_model_update_for_dispatch(
        &state_manager,
        make_model_update(actor_ids[1], 12),
        &mut last_forwarded_model_versions,
    )
    .expect("expected newer model version to be forwarded");
    assert_eq!(newer_forward.actor_id, expected_actor_id);
}

#[test]
fn independent_mode_model_updates_keep_distinct_actor_targets() {
    let actor_ids: Vec<u128> = three_ids()[..2].to_vec();
    let state_manager =
        state_with_actors("test-receiver-distinct", independent_modes(), &actor_ids);
    let mut last_forwarded_model_versions = HashMap::new();
    let first_forward = prepare_transport_model_update_for_dispatch(
        &state_manager,
        make_model_update(actor_ids[0], 5),
        &mut last_forwarded_model_versions,
    )
    .expect("expected first independent model update to be forwarded");
    let second_forward = prepare_transport_model_update_for_dispatch(
        &state_manager,
        make_model_update(actor_ids[1], 5),
        &mut last_forwarded_model_versions,
    )
    .expect("expected second independent model update to be forwarded");

    assert_eq!(first_forward.actor_id, actor_ids[0]);
    assert_eq!(second_forward.actor_id, actor_ids[1]);
}

#[test]
fn other_messages_are_not_received() {
    let state = state_with_actors("test-receiver-other", independent_modes(), &[]);
    let mut versions = HashMap::new();
    let message = build_msg(4, RoutingProtocol::Shutdown, RoutedPayload::Shutdown);
    let forwarded =
        prepare_transport_model_update_for_dispatch(&state, message, &mut versions).unwrap();
    assert_eq!(forwarded.actor_id, 4);
    assert!(matches!(forwarded.payload, RoutedPayload::Shutdown));
    assert!(versions.is_empty());
}

#[test]
fn receivers_follow_events() {
    let namespace = "test-receiver-events";
    let state = state_with_actors(namespace, independent_modes(), &[]);
    let mut receiver = ClientTransportModelReceiver::new(namespace.to_string());
    assert!(!receiver.active);
    match receiver.start() {
        Err(TransportReceiverError::UuidPoolError(why)) => assert_eq!(
            why.to_string(),
            format!(
                "Failed to find UUID in pool: \
                 Failed to find UUIDs in pool for namespace-context '{}':'{}'",
                namespace, RECEIVER_CONTEXT
            )
        ),
        _ => panic!("expected a refusal of the registry"),
    }
    reserve_namespace(namespace);
    let id = reserve_id_with(namespace, RECEIVER_CONTEXT, 117, 100).unwrap();
    let entry = receiver.start().ok().unwrap();
    assert_eq!(entry.namespace, namespace);
    assert_eq!(entry.context, RECEIVER_CONTEXT);
    assert_eq!(entry.id, id.as_u128());
    assert!(receiver.active);
    assert!(matches!(
        receiver.step(&state, ReceiverEvent::Message(make_model_update(9, 1))),
        ReceiverAction::Forward(m) if m.actor_id == 9
    ));
    assert!(matches!(
        receiver.step(&state, ReceiverEvent::Message(make_model_update(9, 1))),
        ReceiverAction::Skip
    ));
    assert!(matches!(
        receiver.step(&state, ReceiverEvent::Closed),
        ReceiverAction::End
    ));
    assert!(matches!(
        receiver.step(&state, ReceiverEvent::Shutdown),
        ReceiverAction::StopListenerAndEnd
    ));
    assert_eq!(ClientTransportModelReceiver::listener_pause(false), None);
}

#[test]
fn receivers_listen_under_the_first_entry() {
    let entry = |id: u128| IdEntry {
        namespace: "n".to_string(),
        context: "c".to_string(),
        id,
    };
    assert_eq!(receiver_entry(Ok(vec![entry(3), entry(4)])).ok().unwrap().id, 3);
    assert!(matches!(
        receiver_entry(Ok(vec![])),
        Err(TransportReceiverError::NoEntriesFound)
    ));
    let refused = UuidPoolError::FailedToFindUuidInPoolError("x".to_string());
    match receiver_entry(Err(refused)) {
        Err(e) => {
            assert!(matches!(e, TransportReceiverError::UuidPoolError(_)));
            let error = RouterError::from(e);
            assert!(matches!(error, RouterError::TransportReceiverError(_)));
        }
        Ok(_) => panic!("expected a refusal"),
    }
}

// Actors.

#[test]
fn spawn_loop_exits_on_shutdown_message() {
    let actor = Actor::new("test-actor-namespace".to_string(), 0xac1, false, false);
    add_id("test-actor-namespace", ACTOR_CONTEXT, Uuid::from_u128(0xac1)).unwrap();
    let task = actor.receive(build_msg(
        actor.actor_id,
        RoutingProtocol::Shutdown,
        RoutedPayload::Shutdown,
    ));
    assert!(matches!(task, ActorTask::Shutdown));
    let result = actor.leave();
    assert!(
        result.is_ok(),
        "spawn_loop did not exit on Shutdown for NdArray, CPU actor"
    );
    assert!(!list_ids("test-actor-namespace", ACTOR_CONTEXT).contains(&Uuid::from_u128(0xac1)));
    assert!(matches!(actor.leave(), Err(ActorError::UuidPoolError(_))));
}

#[test]
fn refusals_to_leave_say_why() {
    let actor = Actor::new("refused-leave".to_string(), 0xac2, false, false);
    match actor.leave() {
        Err(ActorError::UuidPoolError(why)) => assert_eq!(
            why.to_string(),
            "Failed to remove UUID from pool: Failed to locate/remove UUID in pool"
        ),
        _ => panic!("expected a refusal"),
    }

    let owner = reserve_owned_namespace("owned-leave").unwrap();
    let actor = Actor::new("owned-leave".to_string(), 0xac3, false, false);
    match actor.leave() {
        Err(ActorError::UuidPoolError(why)) => assert_eq!(
            why.to_string(),
            "Unauthorized write access to namespace \
             'Unauthorized write access to namespace 'owned-leave''"
        ),
        _ => panic!("expected a refusal"),
    }
    drop(owner);
}

#[test]
fn get_model_version_returns_minus_one_when_no_model() {
    let actor = make_actor();
    assert!(matches!(
        actor.receive(version_request(actor.actor_id, 6)),
        ActorTask::TellModelVersion { reply_to: 6 }
    ));
    let version = actor.get_model_version(None);
    assert_eq!(version, -1, "Unloaded model should report version -1");
    assert_eq!(actor.get_model_version(Some(4)), 4);
}

#[test]
fn handle_shutdown_sends_trajectory_when_non_empty() {
    let actor = make_actor();
    let task = actor.receive(build_msg(
        actor.actor_id,
        RoutingProtocol::FlagLastInference,
        RoutedPayload::FlagLastInference {
            reward: Real::of("1"),
            env_id: None,
            env_label: None,
        },
    ));
    assert!(matches!(task, ActorTask::FlagLastAction { .. }));
    let traj_msg = actor.handle_shutdown(Some(12), Ok((1, 2))).ok().unwrap().unwrap();
    assert_eq!(traj_msg.actor_id, actor.actor_id);
    assert!(matches!(
        traj_msg.payload,
        RoutedPayload::SendTrajectory { timestamp: (1, 2), trajectory: 12 }
    ));
}

#[test]
fn handle_shutdown_does_not_send_when_empty_traj() {
    let actor = make_actor();
    assert!(
        actor.handle_shutdown(None, Ok((1, 2))).ok().unwrap().is_none(),
        "Buffer should be empty after shutdown with no trajectory"
    );
}

#[test]
fn flag_last_action_appends_terminal_action_and_sends_traj() {
    let actor = make_actor();
    let task = actor.receive(build_msg(
        actor.actor_id,
        RoutingProtocol::FlagLastInference,
        RoutedPayload::FlagLastInference {
            reward: Real::of("0"),
            env_id: None,
            env_label: None,
        },
    ));
    match task {
        ActorTask::FlagLastAction { reward } => {
            let end = actor.end_episode(reward, 10);
            assert_eq!(end.last_action.reward.text, "0");
            assert!(end.last_action.done);
            assert_eq!(end.last_action.actor_id, actor.actor_id);
            assert_eq!(end.next_length, 10);
        }
        _ => panic!("expected the end of an episode"),
    }
    let msg = actor.perform_flag_last_action(12, Ok((1, 2))).ok().unwrap();
    assert!(
        matches!(msg.payload, RoutedPayload::SendTrajectory { .. }),
        "FlagLastInference should produce a SendTrajectory message"
    );
    assert!(matches!(
        actor.perform_flag_last_action(12, Err("back".to_string())),
        Err(ActorError::SystemError(m)) if m == "Clock skew: back"
    ));
}

#[test]
fn trajectory_send_failure_returns_err() {
    let actor = make_actor();
    let result = actor.trajectory_sent(Err("channel closed".to_string()));
    assert!(
        matches!(result, Err(ActorError::TrajectorySendError(_))),
        "Expected TrajectorySendError"
    );
    assert!(actor.trajectory_sent(Ok(())).is_ok());
}

#[test]
fn model_version_reply_failure_returns_err() {
    let actor = make_actor();
    let result = actor.reply_sent(Err("-1".to_string()));
    assert!(
        matches!(result, Err(ActorError::MessageHandlingError(_))),
        "Expected MessageHandlingError when oneshot rx is dropped"
    );
    assert!(actor.reply_sent(Ok(())).is_ok());
}

#[test]
fn messages_ask_for_what_they_hold() {
    let actor = make_actor();
    assert!(matches!(
        actor.receive(build_msg(1, RoutingProtocol::RecordAction, RoutedPayload::RecordAction(8))),
        ActorTask::RecordAction { action: 8 }
    ));
    assert!(matches!(
        actor.receive(build_msg(
            1,
            RoutingProtocol::ModelHandshake,
            RoutedPayload::ModelHandshake
        )),
        ActorTask::Handshake
    ));
    assert!(matches!(
        actor.receive(make_model_update(1, 3)),
        ActorTask::RefreshModel { version: 3, .. }
    ));
    assert!(matches!(
        actor.receive(build_msg(1, RoutingProtocol::ModelUpdate, RoutedPayload::Shutdown)),
        ActorTask::Nothing
    ));
    assert!(matches!(
        actor.receive(build_msg(1, RoutingProtocol::Shutdown, RoutedPayload::ModelHandshake)),
        ActorTask::Shutdown
    ));
}

#[test]
fn first_models_are_asked_for_where_there_is_a_server() {
    let begun = |actor: &Actor, model_present: bool| {
        actor.initial_model_handshake(HandshakeEvent::Begun { model_present })
    };
    let actor = make_actor();
    assert!(matches!(begun(&actor, true), HandshakeAction::NotNeeded));
    assert!(matches!(begun(&actor, false), HandshakeAction::End(Ok(false))));
    let actor = Actor::new("ns".to_string(), 7, true, false);
    assert!(matches!(
        begun(&actor, false),
        HandshakeAction::End(Err(ActorError::SystemError(m)))
            if m == "Server addresses not available"
    ));
    let actor = Actor::new("ns".to_string(), 7, true, true);
    match begun(&actor, false) {
        HandshakeAction::Ask(entry) => {
            assert_eq!(
                (entry.namespace.as_str(), entry.context.as_str(), entry.id),
                ("ns", ACTOR_CONTEXT, 7)
            );
        }
        _ => panic!("expected a question"),
    }
    let answered = |model_received: bool, existing_version: Option<i64>| {
        actor.initial_model_handshake(HandshakeEvent::Answered { model_received, existing_version })
    };
    assert!(matches!(answered(false, None), HandshakeAction::End(Ok(false))));
    assert!(matches!(answered(false, Some(i64::MAX)), HandshakeAction::End(Ok(false))));
    assert!(matches!(
        answered(true, None),
        HandshakeAction::Install(ModelInstallation::Fresh)
    ));
    assert!(matches!(
        answered(true, Some(4)),
        HandshakeAction::Install(ModelInstallation::Reload { version: 5 })
    ));
    assert!(matches!(
        actor.initial_model_handshake(HandshakeEvent::Installed(Ok(()))),
        HandshakeAction::End(Ok(true))
    ));
    assert!(matches!(
        actor.initial_model_handshake(HandshakeEvent::Installed(Err("no".to_string()))),
        HandshakeAction::End(Err(ActorError::ModelError(m))) if m == "no"
    ));
}

#[test]
fn models_are_taken_over_in_steps() {
    let actor = make_actor();
    let step = |event| actor.refresh_model(6, event);
    assert!(matches!(
        step(RefreshEvent::Read { is_model: false }),
        RefreshAction::End(Ok(false))
    ));
    assert!(matches!(
        step(RefreshEvent::Read { is_model: true }),
        RefreshAction::Validate
    ));
    assert!(matches!(step(RefreshEvent::Validated(Ok(()))), RefreshAction::Save));
    assert!(matches!(
        step(RefreshEvent::Saved { outcome: Ok(()), model_present: true }),
        RefreshAction::Install(ModelInstallation::Reload { version: 6 })
    ));
    assert!(matches!(
        step(RefreshEvent::Saved { outcome: Ok(()), model_present: false }),
        RefreshAction::Install(ModelInstallation::Fresh)
    ));
    assert!(matches!(
        step(RefreshEvent::Installed(Ok(()))),
        RefreshAction::End(Ok(true))
    ));
    assert!(matches!(
        step(RefreshEvent::Validated(Err("x".to_string()))),
        RefreshAction::End(Err(ActorError::ModelError(m))) if m == "x"
    ));
    assert_eq!(
        Actor::initial_trajectory_length(&ActorTrainingDataMode::Disabled, 10),
        0
    );
    assert_eq!(
        Actor::initial_trajectory_length(&ActorTrainingDataMode::OfflineWithMemory, 10),
        10
    );
}

#[test]
fn engines_forward_to_registered_policies() {
    let mut engine = InferenceEngine::new();
    let asked = InferenceEvent::Asked { policy_id: 1 };
    assert_eq!(engine.forward(asked), InferenceAction::End(None));
    engine.register(1, 10);
    engine.register(1, 11);
    let asked = InferenceEvent::Asked { policy_id: 1 };
    assert_eq!(engine.forward(asked), InferenceAction::Look { handle: 11 });
    engine.deregister(1);
    let asked = InferenceEvent::Asked { policy_id: 1 };
    assert_eq!(engine.forward(asked), InferenceAction::End(None));
}

#[test]
fn models_that_are_missing_or_fail_give_no_action() {
    let engine = InferenceEngine::new();
    let looked = |loaded| engine.forward(InferenceEvent::Looked { loaded });
    assert_eq!(looked(true), InferenceAction::Compute);
    assert_eq!(looked(false), InferenceAction::End(None));
    let computed = |outcome| engine.forward(InferenceEvent::Computed(outcome));
    assert_eq!(computed(Ok(7)), InferenceAction::End(Some(7)));
    assert_eq!(computed(Err("no".to_string())), InferenceAction::End(None));
}

#[test]
fn new_has_no_runtime_params() {
    let coordinator = make_coordinator();
    assert!(coordinator.runtime_params.is_none());
}

#[test]
fn remove_actor_no_runtime_returns_err() {
    let mut c = make_coordinator();
    let (handle, result) = c.remove_actor(1, false);
    assert_eq!(handle, None);
    assert!(result.is_err());
}

#[test]
fn set_actor_id_no_runtime_returns_err() {
    let mut c = make_coordinator();
    let result = c.set_actor_id(1, 2);
    assert!(result.is_err());
}

#[test]
fn flag_last_action_no_runtime_returns_err() {
    let c = make_coordinator();
    let result = c.flag_last_action(&vec![], None);
    assert!(result.is_err());
}

#[test]
fn request_action_stays_routed_through_global_dispatcher() {
    let mut coordinator = make_runtime_coordinator("routed", independent_modes());
    let actor_id: u128 = 0x51;
    {
        let params = coordinator.runtime_params.as_mut().unwrap();
        params.routers = Some(vec![]);
        params.shared_state.actor_inboxes.insert(actor_id, 4);
        params.shared_state.actor_router_addresses.insert(actor_id, "router-a".to_string());
    }
    let asked = coordinator.request_action(&vec![actor_id, 0x52]).ok().unwrap();
    assert_eq!(asked, vec![actor_id]);
    let message = action_request(asked[0], 1, None, Real::of("0.75"), 9);
    assert_eq!(message.actor_id, actor_id);
    match message.payload {
        RoutedPayload::RequestInference { reward, reply_to, mask, observation } => {
            assert_eq!(reward.text, "0.75");
            assert_eq!((reply_to, mask, observation), (9, None, 1));
        }
        _ => panic!("expected RequestInference payload"),
    }
    let actions = gather_actions(vec![(actor_id, ActionReply::Action(25))]).ok().unwrap();
    assert_eq!(actions.len(), 1);
    assert_eq!(actions[0].0, actor_id);
    assert_eq!(actions[0].1, 25);
}

#[test]
fn requests_need_routers_and_answers() {
    let coordinator = make_runtime_coordinator("unrouted", independent_modes());
    assert!(matches!(
        coordinator.request_action(&vec![1]),
        Err(CoordinatorError::ScaleManagerError(
            ScaleManagerError::GetRouterRuntimeParamsError(m)
        )) if m == "[Coordinator] No scaling runtime params"
    ));
    let replies = vec![
        (1, ActionReply::Action(5)),
        (2, ActionReply::NotAnswered("gone".to_string())),
        (3, ActionReply::NotAnswered("late".to_string())),
    ];
    assert!(matches!(
        gather_actions(replies),
        Err(CoordinatorError::ScaleManagerError(
            ScaleManagerError::ReceiveActionResponseError(m)
        )) if m == "gone"
    ));
    assert!(matches!(
        action_request_sent(Err("x".to_string())),
        Err(CoordinatorError::ScaleManagerError(ScaleManagerError::SendActionRequestError(_)))
    ));
    assert!(matches!(
        flag_last_action_sent(Err("x".to_string())),
        Err(CoordinatorError::ScaleManagerError(
            ScaleManagerError::SendFlagLastActionMessageError(_)
        ))
    ));
}

#[test]
fn flag_last_action_stays_routed_through_global_dispatcher() {
    let coordinator = make_runtime_coordinator("flagged", independent_modes());
    let actor_id: u128 = 0x51;
    let messages = coordinator
        .flag_last_action(&vec![actor_id], Some(Real::of("1.5")))
        .ok()
        .unwrap();
    assert_eq!(messages.len(), 1);
    assert_eq!(messages[0].actor_id, actor_id);
    match &messages[0].payload {
        RoutedPayload::FlagLastInference { reward, env_id, env_label } => {
            assert_eq!(reward.text, "1.5");
            assert_eq!(*env_id, None);
            assert_eq!(*env_label, None);
        }
        _ => panic!("expected FlagLastInference payload"),
    }
    let unrewarded = coordinator.flag_last_action(&vec![1, 2], None).ok().unwrap();
    assert_eq!(unrewarded.len(), 2);
    assert!(matches!(
        &unrewarded[1].payload,
        RoutedPayload::FlagLastInference { reward, env_id: None, env_label: None }
            if reward.text == "0"
    ));
}

#[test]
fn get_model_version_no_runtime_returns_err() {
    let c = make_coordinator();
    let result = c.runtime(RuntimeOperation::GetModelVersion);
    assert!(matches!(
        result,
        Err(CoordinatorError::ScaleManagerError(
            ScaleManagerError::GetRouterRuntimeParamsError(m)
        )) if m == "[Coordinator] No runtime instance to get_model_version..."
    ));
}

#[test]
fn prepare_model_update_dispatch_no_runtime_returns_err() {
    let c = make_coordinator();
    let result = c.prepare_model_update_dispatch(None);
    assert!(result.is_err());
}

#[test]
fn prepare_model_update_dispatch_server_mode_returns_none() {
    let coordinator = make_runtime_coordinator("server", server_modes());
    let result = coordinator.prepare_model_update_dispatch(None);
    assert!(matches!(result, Ok(None)));
}

#[test]
fn prepare_model_update_dispatch_subset_filters_requested_actor_ids() {
    let mut coordinator = make_runtime_coordinator("subset", independent_modes());
    let actor_ids = three_ids();
    let unknown_actor_id: u128 = 0x99;
    coordinator.runtime_params.as_mut().unwrap().shared_state =
        state_with_actors("test-coordinator-subset", independent_modes(), &actor_ids);

    let requested_actor_ids = vec![actor_ids[2], unknown_actor_id, actor_ids[0], actor_ids[2]];
    let target_actor_ids = coordinator
        .prepare_model_update_dispatch(Some(&requested_actor_ids))
        .ok()
        .unwrap()
        .unwrap();

    let mut expected_target_actor_ids = vec![actor_ids[0], actor_ids[2]];
    expected_target_actor_ids.sort_by_key(|actor_id| Uuid::from_u128(*actor_id).to_string());
    assert_eq!(target_actor_ids, expected_target_actor_ids);
}

#[test]
fn dispatch_model_updates_sends_expected_targets_and_versions() {
    let mut coordinator = make_runtime_coordinator("versions", independent_modes());
    let actor_ids = three_ids();
    let current_versions = vec![
        (actor_ids[0], 0_i64),
        (actor_ids[1], 4_i64),
        (actor_ids[2], -1_i64),
    ];
    coordinator.runtime_params.as_mut().unwrap().shared_state =
        state_with_actors("test-coordinator-versions", independent_modes(), &actor_ids);

    let target_actor_ids = coordinator
        .prepare_model_update_dispatch(None)
        .ok()
        .unwrap()
        .unwrap();
    let replies = target_actor_ids
        .iter()
        .map(|id| {
            let version = current_versions.iter().find(|(known, _)| known == id).unwrap().1;
            VersionReply::Version(version)
        })
        .collect();
    let versions = request_model_versions(&target_actor_ids, replies).ok().unwrap();
    let mut captured_updates: Vec<(u128, i64, usize)> =
        dispatch_model_updates(&versions, &vec![1, 2, 3])
            .into_iter()
            .map(|message| match message.payload {
                RoutedPayload::ModelUpdate { model_bytes, version } => {
                    (message.actor_id, version, model_bytes.len())
                }
                _ => panic!("expected a model update"),
            })
            .collect();
    captured_updates.sort_by_key(|(actor_id, _, _)| Uuid::from_u128(*actor_id).to_string());

    let mut expected_updates = vec![
        (actor_ids[0], 1_i64),
        (actor_ids[1], 5_i64),
        (actor_ids[2], 0_i64),
    ];
    expected_updates.sort_by_key(|(actor_id, _)| Uuid::from_u128(*actor_id).to_string());

    assert_eq!(captured_updates.len(), expected_updates.len());
    for ((actor_id, version, model_bytes_len), (expected_actor_id, expected_version)) in
        captured_updates.iter().zip(expected_updates.iter())
    {
        assert_eq!(actor_id, expected_actor_id);
        assert_eq!(version, expected_version);
        assert!(
            *model_bytes_len > 0,
            "serialized model bytes should not be empty"
        );
    }
}

#[test]
fn unanswered_version_requests_are_reported() {
    let asked = vec![1, 2];
    let replies = vec![VersionReply::Version(3), VersionReply::NotSent("closed".to_string())];
    assert!(matches!(
        request_model_versions(&asked, replies),
        Err(CoordinatorError::ScaleManagerError(
            ScaleManagerError::SendModelVersionMessageError(m)
        )) if m == "closed"
    ));
    let replies = vec![
        VersionReply::NotAnswered("lost".to_string()),
    ];
    assert!(matches!(
        request_model_versions(&asked, replies),
        Err(CoordinatorError::ScaleManagerError(
            ScaleManagerError::ReceiveModelVersionResponseError(m)
        )) if m == "lost"
    ));
    assert!(matches!(
        model_update_sent(Err("x".to_string())),
        Err(CoordinatorError::ScaleManagerError(
            ScaleManagerError::SendModelUpdateMessageError(_)
        ))
    ));
}

#[test]
fn scale_out_no_runtime_returns_err() {
    let mut c = make_coordinator();
    let result = c.scale_out(Ok(vec!["r".to_string()]));
    assert!(matches!(
        result,
        Err(CoordinatorError::ScaleManagerError(
            ScaleManagerError::GetRouterRuntimeParamsError(m)
        )) if m == "[Coordinator] No runtime instance to scale_out..."
    ));
}

#[test]
fn scale_in_no_runtime_returns_err() {
    let mut c = make_coordinator();
    let result = c.scale_in(Ok(vec!["r".to_string()]));
    assert!(result.is_err());
}

#[test]
fn get_config_no_runtime_returns_err() {
    let c = make_coordinator();
    let result = c.get_config();
    assert!(matches!(
        result,
        Err(CoordinatorError::StateManagerError(StateManagerError::GetConfigError(m)))
            if m == "[Coordinator] No runtime instance to get_config..."
    ));
}

#[test]
fn set_config_path_no_runtime_returns_err() {
    let mut c = make_coordinator();
    let config = ClientConfigLoader::load_config("", None);
    let result = c.set_config_path(&config, CWD);
    assert!(result.is_err());
}

#[test]
fn shutdown_no_runtime_returns_err() {
    let c = make_coordinator();
    let result = c.shutdown();
    assert!(matches!(result, Err(CoordinatorError::NoRuntimeInstanceError)));
}

#[test]
fn runtimes_are_started_with_the_addresses_of_their_modes() {
    let modes = ClientModes {
        actor_inference_mode: ActorInferenceMode::Server(InferenceServerParams {
            inference_addresses: Some(InferenceAddressesArgs::NATS(Some(NetworkParams {
                host: "ignored".to_string(),
                port: "1".to_string(),
            }))),
        }),
        actor_training_data_mode: ActorTrainingDataMode::OnlineWithFiles(
            TrainingServerParams {
                training_addresses: Some(TrainingAddressesArgs::ZMQ(ZmqTrainingAddressArgs {
                    agent_listener_address: Some(NetworkParams {
                        host: "far".to_string(),
                        port: "2".to_string(),
                    }),
                    model_server_address: None,
                    trajectory_server_address: None,
                    training_scaling_server_address: None,
                })),
            },
            Some(LocalTrajectoryFileParams {
                directory: FilePath::of("mine"),
                file_type: LocalTrajectoryFileType::Arrow,
            }),
        ),
    };
    let mut overlaid = TransportConfigBuilder::build_default();
    apply_address_args(&mut overlaid, TransportType::ZMQ, &modes);
    assert_eq!(overlaid.zmq_addresses.training_addresses.agent_listener_address.host, "far");
    assert_eq!(overlaid.nats_addresses.inference_server_address.host, "127.0.0.1");
    assert_eq!(path_text(&trajectory_file_params(&modes).unwrap().directory), "mine");

    let mut coordinator = ClientCoordinator::new(TransportType::ZMQ, modes);
    let config = ClientConfigLoader::load_config("client.json", None);
    let plan = coordinator.start(
        "test-coordinator-start".to_string(),
        Algorithm::PPO,
        &config,
        "client.json".to_string(),
        CWD,
        5,
        10,
    );
    assert_eq!(
        plan.dispatchers,
        DispatcherPlan { inference: true, scaling: true, training: true }
    );
    assert!(plan.shares_addresses);
    let addresses = &plan.lifecycle.transport_addresses;
    assert_eq!(addresses.zmq_training_addresses.agent_listener_address, "tcp://far:2");
    assert_eq!(addresses.zmq_training_addresses.model_server_address, "tcp://127.0.0.1:50051");
    assert_eq!(addresses.nats_inference_address, "");
    assert_eq!(path_text(&plan.lifecycle.trajectory_file_output.directory), "/work/mine");
    assert_eq!(plan.lifecycle.algorithm, Algorithm::PPO);

    coordinator.started(plan, Some(4));
    assert_eq!(coordinator.get_trajectory_memory().ok().unwrap(), 4);
    assert_eq!(
        coordinator.shutdown().ok().unwrap(),
        vec![
            ShutdownStep::ShutdownActors,
            ShutdownStep::SignalServers,
            ShutdownStep::ShutdownTransport,
            ShutdownStep::SignalRuntime,
            ShutdownStep::ClearRouters,
            ShutdownStep::Forget,
        ]
    );
    coordinator.forget_runtime();
    assert!(coordinator.runtime_params.is_none());
    assert!(coordinator.get_trajectory_memory().is_err());
}

fn planned(coordinator: &ClientCoordinator, id: u128) -> StartPlan {
    let config = ClientConfigLoader::load_config("client.json", None);
    coordinator.start(
        open_namespace(id),
        Algorithm::PPO,
        &config,
        "client.json".to_string(),
        CWD,
        5,
        10,
    )
}

#[test]
fn runtimes_are_started_in_steps() {
    let mut coordinator = ClientCoordinator::new(TransportType::ZMQ, independent_modes());
    let namespace = format!("client-{}", Uuid::from_u128(0x5151));
    let mut run = StartRun::new(planned(&coordinator, 0x5151), 2, 2);
    assert!(matches!(
        run.step(&mut coordinator, StartEvent::TransportMade(Ok(()))),
        StartAction::MakeScaling
    ));
    assert!(coordinator.runtime_params.is_none());
    assert!(matches!(
        run.step(&mut coordinator, StartEvent::ScalingMade(Ok(None))),
        StartAction::ScaleOut { routers: 2 }
    ));
    assert_eq!(coordinator.runtime_params.as_ref().unwrap().client_namespace, namespace);
    let routers = vec!["r0".to_string(), "r1".to_string()];
    let mut action = run.step(&mut coordinator, StartEvent::ScaledOut(Ok(routers)));
    let mut added = vec![];
    while let StartAction::AddActor = action {
        let outcome = coordinator.new_actor(
            CPU,
            nothing_loaded(),
            tokens(added.len() as u64),
            false,
            false,
        );
        let outcome = outcome.map(|actor| added.push(actor.actor_id));
        action = run.step(&mut coordinator, StartEvent::ActorAdded(outcome));
    }
    assert_eq!(added.len(), 2);
    match action {
        StartAction::SendClientIds(entries) => {
            assert!(added.iter().all(|id| entries.iter().any(|entry| entry.id == *id)));
            assert!(entries.iter().all(|entry| entry.namespace == namespace));
        }
        _ => panic!("expected the identifiers of the client"),
    }
    match run.step(&mut coordinator, StartEvent::ClientIdsSent(Ok(()))) {
        StartAction::SendAlgorithmInit(entries) => {
            assert_eq!(entries.len(), 2);
            assert!(entries.iter().all(|entry| entry.context == ACTOR_CONTEXT));
        }
        _ => panic!("expected the actors of the client"),
    }
    assert!(matches!(
        run.step(&mut coordinator, StartEvent::AlgorithmInitSent(Ok(()))),
        StartAction::End(Ok(()))
    ));
    coordinator.forget_runtime();
}

#[test]
fn failed_starts_are_reported() {
    let mut coordinator = ClientCoordinator::new(TransportType::ZMQ, independent_modes());
    let mut run = StartRun::new(planned(&coordinator, 0x5252), 1, 1);
    assert!(matches!(
        run.step(
            &mut coordinator,
            StartEvent::TransportMade(Err(TransportError::InvalidState("x".to_string())))
        ),
        StartAction::End(Err(CoordinatorError::TransportError(_)))
    ));
    assert!(coordinator.runtime_params.is_none());

    let lost = || ScaleManagerError::GetRouterRuntimeParamsError("x".to_string());
    let mut run = StartRun::new(planned(&coordinator, 0x5353), 1, 1);
    run.step(&mut coordinator, StartEvent::TransportMade(Ok(())));
    assert!(matches!(
        run.step(&mut coordinator, StartEvent::ScalingMade(Err(lost()))),
        StartAction::End(Err(CoordinatorError::ScaleManagerError(_)))
    ));
    assert!(coordinator.runtime_params.is_none());

    let mut run = StartRun::new(planned(&coordinator, 0x5454), 1, 1);
    run.step(&mut coordinator, StartEvent::TransportMade(Ok(())));
    run.step(&mut coordinator, StartEvent::ScalingMade(Ok(None)));
    assert!(matches!(
        run.step(&mut coordinator, StartEvent::ScaledOut(Err(lost()))),
        StartAction::End(Err(CoordinatorError::ScaleManagerError(_)))
    ));
    assert!(coordinator.runtime_params.is_some());
    let refused = || UuidPoolError::FailedToFindUuidInPoolError("x".to_string());
    assert!(matches!(
        run.announce_client(Err(refused())),
        StartAction::End(Err(CoordinatorError::UuidPoolError(_)))
    ));
    assert!(matches!(
        run.announce_actors(Err(refused())),
        StartAction::End(Err(CoordinatorError::UuidPoolError(_)))
    ));
    assert!(matches!(run.announce_actors(Ok(vec![])), StartAction::SendAlgorithmInit(_)));
}

#[test]
fn scaling_keeps_the_routers_that_are_there() {
    let mut coordinator = make_runtime_coordinator("scaled", independent_modes());
    coordinator.scale_out(Ok(vec!["a".to_string(), "b".to_string()])).ok().unwrap();
    coordinator.scale_in(Ok(vec!["a".to_string()])).ok().unwrap();
    let lost = ScaleManagerError::GetRouterRuntimeParamsError("x".to_string());
    assert!(matches!(
        coordinator.scale_in(Err(lost)),
        Err(CoordinatorError::ScaleManagerError(
            ScaleManagerError::GetRouterRuntimeParamsError(m)
        )) if m == "x"
    ));
    let routers = coordinator.runtime_params.as_ref().unwrap().routers.clone();
    assert_eq!(routers, Some(vec!["a".to_string()]));
    assert_eq!(
        coordinator.get_config().ok().unwrap(),
        coordinator.runtime_params.as_ref().unwrap().lifecycle.get_config_path()
    );
}

#[test]
fn models_are_updated_where_there_is_somebody() {
    let ids = three_ids();
    let mut coordinator = make_runtime_coordinator("updated", shared_modes());
    let plan = coordinator.update_model(None, Some("models".to_string()), "/tmp".to_string());
    assert!(plan.ok().unwrap().is_none());
    coordinator.runtime_params.as_mut().unwrap().shared_state =
        state_with_actors("test-coordinator-updated", shared_modes(), &ids);
    let plan = coordinator
        .update_model(None, Some(String::new()), "/tmp".to_string())
        .ok()
        .unwrap()
        .unwrap();
    assert_eq!(plan.targets.len(), 1);
    assert_eq!(plan.directory, "/tmp");
    let plan = coordinator
        .update_model(Some(&vec![0]), Some("models".to_string()), "/tmp".to_string())
        .ok()
        .unwrap();
    assert!(plan.is_none());
    let server = make_runtime_coordinator("updated-server", server_modes());
    let plan = server.update_model(None, None, "/tmp".to_string());
    assert!(plan.ok().unwrap().is_none());
    assert!(make_coordinator().update_model(None, None, "/tmp".to_string()).is_err());
}

#[test]
fn offline_runtimes_need_no_servers() {
    let files = ClientModes {
        actor_inference_mode: ActorInferenceMode::Local(ModelMode::Shared),
        actor_training_data_mode: ActorTrainingDataMode::OfflineWithFiles(None),
    };
    assert_eq!(
        dispatchers(&files),
        DispatcherPlan { inference: false, scaling: false, training: false }
    );
    assert!(!shares_addresses(&files));
    assert!(trajectory_file_params(&files).is_none());
    let coordinator = make_runtime_coordinator("offline", files);
    assert!(matches!(
        coordinator.get_trajectory_memory(),
        Err(CoordinatorError::ScaleManagerError(
            ScaleManagerError::TrajectoryMemoryNotFoundError(_)
        ))
    ));
    assert_eq!(coordinator.shutdown().ok().unwrap().len(), 5);
}

#[test]
fn actors_are_added_in_turn_and_announced() {
    let mut coordinator = make_runtime_coordinator("added", independent_modes());
    assert!(matches!(
        coordinator.new_actor(CPU, nothing_loaded(), tokens(0), false, false),
        Err(CoordinatorError::ScaleManagerError(
            ScaleManagerError::GetRouterRuntimeParamsError(m)
        )) if m == "[Coordinator] No routers available for actor assignment"
    ));
    coordinator
        .scale_out(Ok(vec!["r0".to_string(), "r1".to_string()]))
        .ok()
        .unwrap();
    let first = coordinator
        .new_actor(CPU, nothing_loaded(), tokens(1), true, true)
        .ok()
        .unwrap();
    assert!(first.needs_handshake);
    assert!(first.init_algorithm);
    assert_eq!(first.announce.as_ref().unwrap().id, first.actor_id);
    assert_eq!(first.announce.as_ref().unwrap().context, ACTOR_CONTEXT);
    let second = coordinator
        .new_actor(CPU, nothing_loaded(), tokens(2), false, true)
        .ok()
        .unwrap();
    assert!(second.announce.is_none());
    assert!(!second.init_algorithm);
    {
        let state = &coordinator.runtime_params.as_ref().unwrap().shared_state;
        assert_eq!(state.router_of(first.actor_id).unwrap(), "r0");
        assert_eq!(state.router_of(second.actor_id).unwrap(), "r1");
    }
    let renamed = coordinator.set_actor_id(second.actor_id, 0x77).ok().unwrap();
    assert!(renamed.iter().any(|entry| entry.id == 0x77));
    assert!(renamed.iter().all(|entry| entry.id != second.actor_id));

    let mut ids: Vec<u128> = renamed.iter().map(|entry| entry.id).collect();
    ids.sort();
    ids.dedup();
    assert_eq!(ids.len(), renamed.len());

    let (handle, announced) = coordinator.remove_actor(0x77, true);
    assert_eq!(handle, Some(302));
    let announced = announced.ok().unwrap().unwrap();
    assert!(announced.iter().any(|entry| entry.id == first.actor_id));
    assert!(announced.iter().all(|entry| entry.id != 0x77));
    let (handle, announced) = coordinator.remove_actor(first.actor_id, false);
    assert!(handle.is_some());
    assert!(matches!(announced, Ok(None)));
}

#[test]
fn removals_are_reported_by_their_outcome() {
    let gone = |outcome| RemovedActor { handle: Some(4), outcome };
    assert!(matches!(after_removal(gone(Ok(())), false, "removal-report"), (Some(4), Ok(None))));
    let refused = StateManagerError::ShutdownAllActorsError("no".to_string());
    assert!(matches!(
        after_removal(gone(Err(refused)), true, "removal-report"),
        (Some(4), Err(CoordinatorError::StateManagerError(_)))
    ));
    assert!(matches!(
        after_removal(gone(Ok(())), true, "removal-report"),
        (Some(4), Err(CoordinatorError::UuidPoolError(_)))
    ));
    add_id("removal-report", ACTOR_CONTEXT, Uuid::from_u128(3)).unwrap();
    match after_removal(gone(Ok(())), true, "removal-report") {
        (Some(4), Ok(Some(entries))) => assert_eq!(entries[0].id, 3),
        _ => panic!("expected the actor that remains"),
    }
    assert_eq!(client_namespace(9), open_namespace(9));
    let slot = actor_slot("slots");
    assert_eq!((slot.namespace.as_str(), slot.context.as_str()), ("slots", ACTOR_CONTEXT));
    assert_eq!((slot.base, slot.max_retries), (117, 100));
}

#[test]
fn owned_namespaces_refuse_actors() {
    let mut coordinator = make_runtime_coordinator("owned-actors", independent_modes());
    let namespace = coordinator.runtime_params.as_ref().unwrap().client_namespace.clone();
    let owner = reserve_owned_namespace(&namespace).unwrap();
    match coordinator.new_actor(CPU, nothing_loaded(), tokens(1), false, false) {
        Err(CoordinatorError::UuidPoolError(why)) => assert_eq!(
            why.to_string(),
            format!(
                "Unauthorized write access to namespace \
                 'Unauthorized write access to namespace '{}''",
                namespace
            )
        ),
        _ => panic!("expected a refusal of the registry"),
    }
    drop(owner);
}

#[test]
fn refused_identifiers_add_no_actor() {
    let mut coordinator = make_runtime_coordinator("refused", independent_modes());
    let refused = UuidPoolError::FailedToFindUuidInPoolError("x".to_string());
    let result =
        coordinator.add_actor(Err(refused), CPU, nothing_loaded(), tokens(0), false, false);
    assert!(matches!(result, Err(CoordinatorError::UuidPoolError(_))));
    assert!(coordinator.runtime_params.unwrap().shared_state.actor_inboxes.is_empty());
}

#[test]
fn routers_are_assigned_in_turn() {
    let routers = Some(vec!["a".to_string(), "b".to_string(), "c".to_string()]);
    assert_eq!(assigned_router(&routers, 0).ok().unwrap(), "a");
    assert_eq!(assigned_router(&routers, 5).ok().unwrap(), "c");
    assert!(matches!(
        assigned_router(&Some(vec![]), 0),
        Err(CoordinatorError::ScaleManagerError(
            ScaleManagerError::GetRouterRuntimeParamsError(m)
        )) if m == "[Coordinator] No routers available"
    ));
}

#[test]
fn configurations_are_looked_for() {
    assert_eq!(
        chosen_config_path(Some("a".to_string()), Some("b".to_string())).ok().unwrap(),
        "a"
    );
    assert_eq!(chosen_config_path(None, Some("b".to_string())).ok().unwrap(), "b");
    assert!(matches!(
        chosen_config_path(None, None),
        Err(CoordinatorError::ConfigError(ClientConfigError::NotFound(m)))
            if m == "[Coordinator] No config path provided and default config path not found..."
    ));
    assert_eq!(serialization_directory(Some("d".to_string()), "t".to_string()), "d");
    assert_eq!(serialization_directory(Some(String::new()), "t".to_string()), "t");
    assert_eq!(serialization_directory(None, "t".to_string()), "t");
    assert!(matches!(
        directory_error("d", "full"),
        CoordinatorError::ConfigError(ClientConfigError::InvalidValue(m))
            if m == "Failed to create model serialization directory 'd': full"
    ));
}

#[test]
fn namespaces_are_opened_empty() {
    let name = "client-00000000-0000-0000-0000-00000000beef";
    add_id(name, "old", Uuid::from_u128(5)).unwrap();
    assert_eq!(open_namespace(0xbeef), name);
    assert!(list_ids(name, "old").is_empty());
}

#[test]
fn reloaded_configurations_reach_the_runtime() {
    let mut coordinator = make_runtime_coordinator("reload", independent_modes());
    let mut config = ClientConfigLoader::load_config("other.json", None);
    config.transport_config.max_traj_length = 3;
    coordinator.set_config_path(&config, "/elsewhere").ok().unwrap();
    let params = coordinator.runtime(RuntimeOperation::GetConfig).ok().unwrap();
    assert_eq!(params.lifecycle.get_max_traj_length(), 3);
    assert_eq!(params.lifecycle.get_config_path(), "client.json");
    assert_eq!(
        path_text(&params.lifecycle.get_trajectory_file_output().directory),
        "/elsewhere/experiment_data"
    );
}

#[test]
fn actor_errors_describe_themselves() {
    assert!(ActorError::ModelError("x".to_string()).message().unwrap().contains("x"));
    assert!(ActorError::TransportError(TransportError::CircuitOpen).message().is_none());
}

// Text and identifiers.

#[test]
fn texts_are_split_and_joined() {
    for text in ["", "a", "a=b", "=a==b=", "\u{e9}=\u{1f600}"] {
        let parts = split_on(text, '=');
        let expected: Vec<String> = text.split('=').map(|p| p.to_string()).collect();
        assert_eq!(parts, expected);
        assert_eq!(join_texts(&parts, "="), text);
    }
    assert!(has_char("a b", ' '));
    assert!(!has_char("ab", ' '));
    assert!(same_text("a\u{e9}", "a\u{e9}"));
    assert!(!same_text("a", "ab"));
    assert_eq!(decimal_text(0), "0");
    assert_eq!(decimal_text(u64::MAX), u64::MAX.to_string());
    assert_eq!(bool_text(true), "true");
}

#[test]
fn integers_are_read_like_those_of_the_standard_library() {
    for text in [
        "0",
        "-0",
        "+7",
        "007",
        "9223372036854775807",
        "-9223372036854775808",
        "9223372036854775808",
        "-9223372036854775809",
        "",
        "+",
        "-",
        "1 ",
        "--1",
        "\u{663}",
    ] {
        match (parse_i64(text), text.parse::<i64>()) {
            (Ok(ours), Ok(theirs)) => assert_eq!(ours, theirs),
            (Err(fault), Err(theirs)) => assert_eq!(fault.message(), theirs.to_string()),
            _ => panic!("readings of {text:?} differ"),
        }
    }
    assert_eq!(parse_i64("").unwrap_err(), IntegerFault::Empty);
    for text in ["4294967295", "4294967296", "+1", "-1", "-0", "", "x"] {
        assert_eq!(parse_u32(text), text.parse::<u32>().ok());
    }
    for text in [" a b ", "\t\u{a0}x\n", "", " ", "\u{2003}\u{e9}\u{3000}"] {
        assert_eq!(trim_text(text), text.trim());
    }
}

#[test]
fn identifiers_are_written_like_uuids() {
    for id in [0, 1, u128::MAX, 0x0123456789abcdef_0fedcba987654321] {
        assert_eq!(entry_text("", "", id, ""), Uuid::from_u128(id).to_string());
        let parts = vec![
            vec![],
            vec![1],
            id.to_be_bytes().to_vec(),
            0i64.to_be_bytes().to_vec(),
        ];
        let message = build_routed_model_update_message(&parts).unwrap().unwrap();
        assert_eq!(message.actor_id, id);
    }
    let mut ids = three_ids();
    ids.sort();
    let mut by_text = three_ids();
    by_text.sort_by_key(|id| entry_text("", "", *id, ""));
    assert_eq!(ids, by_text);
}
