//! Requests over ZeroMQ and NATS, their policies and their listeners.

use active_uuid_registry::interface::{add_id, list_ids, reserve_owned_namespace};
use active_uuid_registry::registry_uuid::Uuid;
use active_uuid_registry::UuidPoolError;
use dashmap::DashMap;
use relayrl_framework::entries::{colon_list, entry_text, own_colon_list, spaced_list, validate_entry};
use relayrl_framework::errors::{TransportError, ZmqPoolError};
use relayrl_framework::hyperparameters::Algorithm;
use relayrl_framework::interface::{
    Admission, AttemptOutcome, NatsInterface, NatsProtocol, ProtocolKind, RequestAction, RequestEvent,
    RequestRun, RetryAction, ScalingAction, ScalingEvent, ScalingRun,
};
use relayrl_framework::lifecycle::construct_transport_addresses;
use relayrl_framework::listeners::ModelListeners;
use relayrl_framework::messages::{RoutedPayload, RoutingProtocol};
use relayrl_framework::modes::{
    ActorInferenceMode, ActorTrainingDataMode, ClientModes, InferenceServerParams, ModelMode,
    TrainingServerParams, TransportType,
};
use relayrl_framework::nats;
use relayrl_framework::nats::{
    address_fingerprint, BundleStep, ClientPlan, ForwardAction, ForwardEvent,
    NatsConnectionManager, NatsOperation, NatsOps, NatsServer, ScalingOperation,
};
use relayrl_framework::nats_payloads::{check_announced, ModelFilesBundle};
use relayrl_framework::nats_policies;
use relayrl_framework::policies::{BackpressureController, CircuitState, RetryPolicy, SECOND};
use relayrl_framework::registry::IdEntry;
use relayrl_framework::transport_config::{TransportConfigBuildParams, TransportConfigBuilder};
use relayrl_framework::zmq;
use relayrl_framework::zmq::{
    CacheAddressType, ListenAction, ListenEvent, ModelFileStep, ServerResponse, SocketKind,
    SocketPoolType, SocketUse, ZmqAction, ZmqEvent, ZmqOperation, ZmqPool, ZmqRun,
    ZmqTrainingOps, ZMQ_CLIENT_CONTEXT,
};
use relayrl_framework::zmq_policies;
use std::collections::hash_map::DefaultHasher;
use std::hash::{Hash, Hasher};

fn entry(namespace: &str, context: &str, id: u128) -> IdEntry {
    IdEntry { namespace: namespace.to_string(), context: context.to_string(), id }
}

fn described(e: TransportError) -> String {
    match e {
        TransportError::InvalidState(m)
        | TransportError::NatsClientError(m)
        | TransportError::ListenForModelError(m)
        | TransportError::ModelHandshakeError(m)
        | TransportError::SendTrajError(m)
        | TransportError::SendClientIdsToServerError(m)
        | TransportError::SendScalingWarningError(m)
        | TransportError::SendScalingCompleteError(m)
        | TransportError::SendShutdownSignalError(m)
        | TransportError::SendAlgorithmInitRequestError(m) => m,
        other => format!("{:?}", other),
    }
}

fn make_model_update_message_parts(
    actor_id_bytes: [u8; 16],
    version: i64,
    model_bytes: &[u8],
) -> Vec<Vec<u8>> {
    vec![
        b"model-update".to_vec(),
        model_bytes.to_vec(),
        actor_id_bytes.to_vec(),
        version.to_be_bytes().to_vec(),
    ]
}

fn make_model_update_payload(actor_id_bytes: Vec<u8>, version: i64, model_bytes: &[u8]) -> Vec<u8> {
    bincode::serde::encode_to_vec(
        (model_bytes.to_vec(), actor_id_bytes, version),
        bincode::config::standard(),
    )
    .unwrap()
}

fn cached_pool(id: u128) -> ZmqPool {
    let mut pool = ZmqPool::new("test-client".to_string());
    let addresses = DashMap::new();
    addresses.insert(
        id,
        construct_transport_addresses(&TransportConfigBuilder::build_default(), &TransportType::ZMQ),
    );
    pool.cached_addresses = Some(addresses);
    pool
}

#[test]
fn build_routed_model_update_message_parses_versioned_frames() {
    let message_parts = make_model_update_message_parts([1; 16], 7, &[10, 20]);
    let routed_message = zmq::build_routed_model_update_message(&message_parts)
        .unwrap()
        .unwrap();
    assert_eq!(routed_message.actor_id, u128::from_be_bytes([1; 16]));
    assert!(matches!(routed_message.protocol, RoutingProtocol::ModelUpdate));
    match routed_message.payload {
        RoutedPayload::ModelUpdate { model_bytes, version } => {
            assert_eq!(model_bytes, vec![10, 20]);
            assert_eq!(version, 7);
        }
        _ => panic!("expected model update payload"),
    }
}

#[test]
fn negative_versions_are_read() {
    for wanted in [-1i64, i64::MIN, i64::MAX, 0] {
        let parts = make_model_update_message_parts([1; 16], wanted, &[1]);
        let message = zmq::build_routed_model_update_message(&parts).unwrap().unwrap();
        assert!(
            matches!(message.payload, RoutedPayload::ModelUpdate { version, .. } if version == wanted)
        );
    }
}

#[test]
fn build_routed_model_update_message_rejects_missing_version_frame() {
    let message_parts = vec![b"model-update".to_vec(), vec![10, 20], vec![1; 16]];
    let err = match zmq::build_routed_model_update_message(&message_parts) {
        Ok(_) => panic!("expected malformed message to return an error"),
        Err(err) => err,
    };
    match err {
        TransportError::ListenForModelError(message) => {
            assert_eq!(message, "Malformed model update response");
        }
        other => panic!("unexpected error: {other:?}"),
    }
}

#[test]
fn build_routed_model_update_message_rejects_invalid_version_frame_length() {
    let mut message_parts = make_model_update_message_parts([1; 16], 7, &[10, 20]);
    message_parts[3] = vec![1, 2, 3, 4];
    let err = match zmq::build_routed_model_update_message(&message_parts) {
        Ok(_) => panic!("expected malformed version frame to return an error"),
        Err(err) => err,
    };
    match err {
        TransportError::ListenForModelError(message) => {
            assert_eq!(
                message,
                "Malformed model update response: invalid version byte length: expected 8, got 4"
            );
        }
        other => panic!("unexpected error: {other:?}"),
    }
}

#[test]
fn updates_without_a_model_or_an_actor_are_skipped() {
    let mut parts = make_model_update_message_parts([1; 16], 7, &[]);
    assert!(zmq::build_routed_model_update_message(&parts).unwrap().is_none());
    parts = make_model_update_message_parts([1; 16], 7, &[1]);
    parts[2] = vec![1; 15];
    assert!(zmq::build_routed_model_update_message(&parts).unwrap().is_none());
}

#[test]
fn register_and_stop_model_listener_updates_flag() {
    let mut pool = ZmqPool::new("test-client".to_string());
    let receiver_id: u128 = 0x5151;
    let listener = pool.listeners.register_model_listener(receiver_id);
    assert!(!pool.listeners.is_stopping(&listener));
    pool.listeners.stop_model_listener(receiver_id);
    assert!(pool.listeners.is_stopping(&listener));
}

#[test]
fn begin_shutdown_marks_transport_and_active_listeners() {
    let mut pool = ZmqPool::new("test-client".to_string());
    let receiver_id: u128 = 0x5151;
    let listener = pool.listeners.register_model_listener(receiver_id);
    pool.begin_shutdown();
    assert!(pool.is_shutting_down());
    assert!(pool.listeners.is_stopping(&listener));
}

#[test]
fn unregister_model_listener_removes_flag_entry() {
    let mut pool = ZmqPool::new("test-client".to_string());
    let receiver_id: u128 = 0x5151;
    let _ = pool.listeners.register_model_listener(receiver_id);
    pool.listeners.unregister_model_listener(receiver_id);
    assert!(pool.listeners.flags.get(&receiver_id).is_none());
}

#[test]
fn ops_register_and_stop_model_listener_updates_flag() {
    let mut connection_manager = NatsConnectionManager::new("test-client".to_string());
    let receiver_id: u128 = 0x5151;
    let handle = connection_manager.listeners.register_model_listener(receiver_id);
    assert!(!connection_manager.listeners.is_stopping(&handle));
    connection_manager.listeners.stop_model_listener(receiver_id);
    assert!(connection_manager.listeners.is_stopping(&handle));
}

#[test]
fn listener_handle_drop_unregisters_listener_flag() {
    let mut connection_manager = NatsConnectionManager::new("test-client".to_string());
    let receiver_id: u128 = 0x5151;
    let handle = connection_manager.listeners.register_model_listener(receiver_id);
    assert!(connection_manager.listeners.flags.get(&receiver_id).is_some());
    connection_manager.listeners.drop_handle(handle);
    assert!(connection_manager.listeners.flags.get(&receiver_id).is_none());
}

#[test]
fn a_handle_from_before_a_new_registration_drops_nothing() {
    let mut listeners = ModelListeners::new();
    let first = listeners.register_model_listener(1);
    listeners.unregister_model_listener(1);
    let second = listeners.register_model_listener(1);
    listeners.drop_handle(first);
    assert!(listeners.flags.get(&1).is_some());
    listeners.stop_model_listener(1);
    assert!(listeners.is_stopping(&second));
    assert!(!listeners.is_stopping(&first));
}

#[test]
fn begin_shutdown_marks_registered_listeners_stopping() {
    let mut connection_manager = NatsConnectionManager::new("test-client".to_string());
    let receiver_id: u128 = 0x5151;
    let handle = connection_manager.listeners.register_model_listener(receiver_id);
    let shutdown_clients = connection_manager.begin_shutdown();
    assert!(shutdown_clients.is_some());
    assert!(connection_manager.is_shutting_down());
    assert!(connection_manager.listeners.is_stopping(&handle));
    assert!(connection_manager.begin_shutdown().is_none());
}

#[test]
fn connection_manager_shutdown_marks_state_and_blocks_reconnects() {
    let mut connection_manager = NatsConnectionManager::new("test-client".to_string());
    assert!(!connection_manager.is_shutting_down());
    let shutdown_clients = connection_manager.begin_shutdown();
    assert!(shutdown_clients.is_some());
    assert!(connection_manager.is_shutting_down());
    assert!(matches!(
        connection_manager.get_training_client("nats://127.0.0.1:4222"),
        Err(TransportError::InvalidState(message)) if message.contains("shutting down")
    ));
}

#[test]
fn connections_are_reused_for_their_address() {
    let mut m = NatsConnectionManager::new("test-client".to_string());
    assert_eq!(m.get_inference_client("nats://a:1").unwrap(), ClientPlan::Connect);
    assert_eq!(m.inference_connected("nats://a:1", Ok(5)).unwrap(), 5);
    assert_eq!(
        m.get_inference_client("nats://a:1").unwrap(),
        ClientPlan::Ready { client: 5, context: None }
    );
    assert_eq!(
        m.get_inference_client("nats://b:1").unwrap(),
        ClientPlan::DrainThenConnect(5)
    );
    assert_eq!(
        described(
            m.drained(NatsServer::Inference, "nats://b:1", Err("busy".to_string()))
                .unwrap_err()
        ),
        "Failed to drain existing inference NATS client before reconnecting to 'nats://b:1': busy"
    );
    // The connection is gone though its address is still known.
    assert_eq!(
        described(m.get_inference_client("nats://a:1").unwrap_err()),
        "Inference NATS client is unavailable after connection attempt"
    );
    assert_eq!(
        described(m.inference_connected("nats://b:1", Err("down".to_string())).unwrap_err()),
        "Failed to connect inference NATS client to 'nats://b:1': down"
    );
}

#[test]
fn training_connections_come_with_their_context() {
    let mut m = NatsConnectionManager::new("test-client".to_string());
    assert_eq!(m.get_training_client("nats://a:1").unwrap(), ClientPlan::Connect);
    assert_eq!(m.training_connected("nats://a:1", Ok((5, 6))).unwrap(), (5, 6));
    assert_eq!(
        m.get_training_client("nats://a:1").unwrap(),
        ClientPlan::Ready { client: 5, context: Some(6) }
    );
    m.training_jetstream_context = None;
    assert_eq!(
        described(m.get_training_client("nats://a:1").unwrap_err()),
        "Training NATS JetStream context is unavailable after connection attempt"
    );
    m.training_jetstream_context = Some(6);
    assert_eq!(
        m.get_training_client("nats://b:1").unwrap(),
        ClientPlan::DrainThenConnect(5)
    );
    assert!(m.drained(NatsServer::Training, "nats://b:1", Ok(())).is_ok());
    assert_eq!(m.training_jetstream_context, None);
    assert_eq!(
        described(m.get_training_client("nats://a:1").unwrap_err()),
        "Training NATS client is unavailable after connection attempt"
    );
    assert_eq!(
        described(m.training_connected("nats://b:1", Err("down".to_string())).unwrap_err()),
        "Failed to connect training NATS client to 'nats://b:1': down"
    );
}

#[test]
fn draining_failures_at_the_end_are_reported_together() {
    assert!(nats::shutdown_outcome("c", None, None).is_ok());
    assert_eq!(
        described(nats::shutdown_outcome("c", Some("x".to_string()), None).unwrap_err()),
        "Failed to drain inference NATS client for 'c': x"
    );
    assert_eq!(
        described(nats::shutdown_outcome("c", None, Some("y".to_string())).unwrap_err()),
        "Failed to drain training NATS client for 'c': y"
    );
    match nats::shutdown_outcome("c", Some("x".to_string()), Some("y".to_string())) {
        Err(TransportError::MultipleErrors(first, second)) => {
            assert_eq!(first, "Failed to drain inference NATS client for 'c': x");
            assert_eq!(second, "Failed to drain training NATS client for 'c': y");
        }
        _ => panic!("expected two errors"),
    }
}

#[test]
fn fingerprints_are_those_of_the_hasher() {
    for address in ["nats://127.0.0.1:4222", "", "nats://b\u{e9}:1"] {
        let mut hasher = DefaultHasher::new();
        address.hash(&mut hasher);
        assert_eq!(address_fingerprint(address), hasher.finish());
    }
    assert_ne!(address_fingerprint("a"), address_fingerprint("b"));
}

#[test]
fn forward_model_update_payloads_dispatches_multiple_updates() {
    let payloads = vec![
        make_model_update_payload(vec![1; 16], 3, &[10, 20]),
        make_model_update_payload(vec![2; 16], 4, &[30, 40]),
    ];
    let mut forwarded = Vec::new();
    for payload in payloads {
        match nats::forward_model_update_payloads(ForwardEvent::Received(payload)) {
            ForwardAction::Forward(message) => forwarded.push(message),
            _ => panic!("expected a message"),
        }
        assert!(matches!(
            nats::forward_model_update_payloads(ForwardEvent::Forwarded),
            ForwardAction::Receive
        ));
    }
    let expected: [(u8, Vec<u8>, i64); 2] = [(1, vec![10, 20], 3), (2, vec![30, 40], 4)];
    for (message, (byte, bytes, wanted)) in forwarded.into_iter().zip(expected) {
        assert_eq!(message.actor_id, u128::from_be_bytes([byte; 16]));
        assert!(matches!(message.protocol, RoutingProtocol::ModelUpdate));
        match message.payload {
            RoutedPayload::ModelUpdate { model_bytes, version } => {
                assert_eq!(model_bytes, bytes);
                assert_eq!(version, wanted);
            }
            _ => panic!("expected model update payload"),
        }
    }
}

#[test]
fn forward_model_update_payloads_returns_ok_when_shutdown_closes_stream() {
    assert!(matches!(
        nats::forward_model_update_payloads(ForwardEvent::Closed { stopping: true }),
        ForwardAction::End(Ok(()))
    ));
}

#[test]
fn forward_model_update_payloads_errors_when_stream_closes_unexpectedly() {
    assert!(matches!(
        nats::forward_model_update_payloads(ForwardEvent::Closed { stopping: false }),
        ForwardAction::End(Err(TransportError::ListenForModelError(message)))
            if message.contains("closed unexpectedly")
    ));
}

#[test]
fn broken_announcements_end_the_forwarding() {
    let cases = [
        (
            make_model_update_payload(vec![1; 16], 3, &[]),
            "Received model update broadcast with empty model bytes",
        ),
        (
            make_model_update_payload(vec![1; 4], 3, &[1]),
            "Received model update broadcast with invalid actor ID byte length: expected 16, got 4",
        ),
    ];
    for (payload, wanted) in cases {
        match nats::forward_model_update_payloads(ForwardEvent::Received(payload)) {
            ForwardAction::End(Err(e)) => assert_eq!(described(e), wanted),
            _ => panic!("expected an error"),
        }
    }
    match nats::forward_model_update_payloads(ForwardEvent::Received(vec![])) {
        ForwardAction::End(Err(TransportError::InvalidState(m))) => {
            assert!(m.starts_with("Failed to deserialize model update broadcast response: "))
        }
        _ => panic!("expected an error"),
    }
    let failed = ForwardEvent::ForwardFailed { why: "closed".to_string(), stopping: false };
    match nats::forward_model_update_payloads(failed) {
        ForwardAction::End(Err(e)) => assert_eq!(
            described(e),
            "Failed to dispatch model update message to global dispatcher: closed"
        ),
        _ => panic!("expected an error"),
    }
    let stopped = ForwardEvent::ForwardFailed { why: "closed".to_string(), stopping: true };
    assert!(matches!(
        nats::forward_model_update_payloads(stopped),
        ForwardAction::End(Ok(()))
    ));
}

#[test]
fn request_bodies_are_those_of_bincode() {
    let ops = NatsOps::new("ns".to_string(), "nats-client".to_string());
    let e = entry("ns", "scaling", 0xff);
    let id = "00000000-0000-0000-0000-0000000000ff".to_string();
    let head = (
        "ns".to_string(),
        "nats-client".to_string(),
        "ns".to_string(),
        "scaling".to_string(),
        id.clone(),
    );
    let standard = bincode::config::standard();

    let body = ops.execute_send_shutdown_signal(NatsServer::Inference, &e, "nats://a").unwrap();
    assert_eq!(body, bincode::serde::encode_to_vec(&head, standard).unwrap());

    let body = ops.execute_initial_model_handshake(&e, "nats://a").unwrap();
    assert_eq!(body, bincode::serde::encode_to_vec(&head, standard).unwrap());

    let body = ops
        .execute_send_scaling_warning(
            NatsServer::Training,
            &e,
            &ScalingOperation::ScaleOut,
            "nats://a",
        )
        .unwrap();
    let expected = bincode::serde::encode_to_vec((&head, "scale_out"), standard).unwrap();
    assert_eq!(body, expected);

    let body = ops
        .execute_send_scaling_complete(
            NatsServer::Inference,
            &e,
            &ScalingOperation::ScaleIn,
            "nats://a",
        )
        .unwrap();
    let expected = bincode::serde::encode_to_vec((&head, "scale_in"), standard).unwrap();
    assert_eq!(body, expected);

    let body = ops.execute_send_inference_request(&e, &vec![1, 2, 3], "nats://a").unwrap();
    let expected = bincode::serde::encode_to_vec((&head, vec![1u8, 2, 3]), standard).unwrap();
    assert_eq!(body, expected);

    let ids = vec![entry("n1", "actor", 1), entry("n2", "buffer", 2)];
    let body = ops.execute_send_client_ids(NatsServer::Training, &e, &ids, "nats://a").unwrap();
    let listed = vec![
        ("n1", "actor", "00000000-0000-0000-0000-000000000001"),
        ("n2", "buffer", "00000000-0000-0000-0000-000000000002"),
    ];
    let expected = bincode::serde::encode_to_vec((&head, listed), standard).unwrap();
    assert_eq!(body, expected);

    let files = Some(ModelFilesBundle {
        metadata_json_bytes: vec![7],
        model_file_name: "m.pt".to_string(),
        model_file_bytes: vec![8, 9],
    });
    let body = ops
        .execute_send_inference_model_init_request(&e, &ModelMode::Shared, &files, "nats://a")
        .unwrap();
    let inner = bincode::serde::encode_to_vec((vec![7u8], "m.pt", vec![8u8, 9]), standard).unwrap();
    let expected = bincode::serde::encode_to_vec((&head, "Shared", inner), standard).unwrap();
    assert_eq!(body, expected);
    let body = ops
        .execute_send_inference_model_init_request(&e, &ModelMode::Independent, &None, "nats://a")
        .unwrap();
    let none: Vec<u8> = vec![];
    let expected = bincode::serde::encode_to_vec((&head, "Independent", none), standard).unwrap();
    assert_eq!(body, expected);

    let start = ops
        .execute_send_algorithm_init_request(&e, &ids, &ModelMode::Shared, "nats://a")
        .unwrap();
    assert_eq!(
        start.actor_entries,
        "n1:actor:00000000-0000-0000-0000-000000000001,\
         n2:buffer:00000000-0000-0000-0000-000000000002"
    );
    assert_eq!(start.model_mode, "Shared");
    assert_eq!(start.head.id, id);
    assert_eq!(ops.execute_send_trajectory(&e, "nats://a").unwrap().context, "scaling");
    let flag = ops.execute_send_flag_last_inference(&e, "nats://a").unwrap();
    assert_eq!(flag.transport_context, "nats-client");
}

#[test]
fn empty_nats_addresses_are_refused() {
    let ops = NatsOps::new("ns".to_string(), "nats-client".to_string());
    let e = entry("ns", "scaling", 1);
    let inference = "Inference server address is empty";
    let training = "Training server address is empty";
    let up = ScalingOperation::ScaleOut;
    assert!(matches!(
        ops.execute_send_inference_request(&e, &vec![], ""),
        Err(TransportError::NatsClientError(m)) if m == inference
    ));
    assert!(matches!(
        ops.execute_send_client_ids(NatsServer::Training, &e, &vec![], ""),
        Err(TransportError::SendClientIdsToServerError(m)) if m == training
    ));
    assert!(matches!(
        ops.execute_send_scaling_warning(NatsServer::Inference, &e, &up, ""),
        Err(TransportError::SendScalingWarningError(m)) if m == inference
    ));
    assert!(matches!(
        ops.execute_send_scaling_complete(NatsServer::Training, &e, &up, ""),
        Err(TransportError::SendScalingCompleteError(m)) if m == training
    ));
    assert!(matches!(
        ops.execute_send_shutdown_signal(NatsServer::Inference, &e, ""),
        Err(TransportError::SendShutdownSignalError(m)) if m == inference
    ));
    assert!(matches!(
        ops.execute_send_algorithm_init_request(&e, &vec![], &ModelMode::Shared, ""),
        Err(TransportError::SendAlgorithmInitRequestError(m)) if m == training
    ));
    assert!(matches!(
        ops.execute_initial_model_handshake(&e, ""),
        Err(TransportError::ModelHandshakeError(m)) if m == training
    ));
    assert!(matches!(
        ops.execute_send_trajectory(&e, ""),
        Err(TransportError::SendTrajError(m)) if m == training
    ));
    assert!(matches!(
        nats::begin_listening("", false, false),
        Err(TransportError::ListenForModelError(m)) if m == training
    ));
    assert_eq!(
        described(nats::begin_listening("nats://a", true, false).unwrap_err()),
        "Model update transmitter channel is closed"
    );
    assert!(!nats::begin_listening("nats://a", false, true).unwrap());
    assert!(nats::begin_listening("nats://a", false, false).unwrap());
}

#[test]
fn nats_failures_name_their_subject() {
    assert_eq!(
        described(nats::sending_error(NatsOperation::InferenceRequest, "s.t", "e")),
        "NATS request on 's.t' failed for inference: e"
    );
    assert_eq!(
        described(nats::sending_error(NatsOperation::TrainingShutdown, "s.t", "e")),
        "NATS publish on 's.t' failed for training shutdown signal: e"
    );
    assert_eq!(
        described(nats::sending_error(NatsOperation::Trajectory, "s.t", "e")),
        "JetStream publish on 's.t' failed for trajectory: e"
    );
    assert_eq!(
        described(nats::unacknowledged_trajectory("s.t", "e")),
        "JetStream publish acknowledgement on 's.t' failed for trajectory: e"
    );
    assert_eq!(
        described(nats::sending_error(NatsOperation::ListenForModel, "s.t", "e")),
        "Failed to subscribe to 's.t' for model updates: e"
    );
    assert_eq!(
        described(nats::unreadable_action("e")),
        "Failed to deserialize inference response as RelayRLAction: e"
    );
    assert_eq!(
        described(
            nats::payload_encoded(NatsOperation::Trajectory, Err("e".to_string())).unwrap_err()
        ),
        "Failed to serialize trajectory publish payload: e"
    );
}

#[test]
fn nats_acknowledgements_are_numbers() {
    let read = |s: &str| nats::client_ids_acknowledged(NatsServer::Training, &s.as_bytes().to_vec());
    assert!(read(" 0\n").is_ok());
    assert_eq!(
        described(read("1").unwrap_err()),
        "Training server responded with failure to client IDs request"
    );
    assert_eq!(
        described(read("ok").unwrap_err()),
        "Failed to parse training client IDs acknowledgement response: \
         invalid digit found in string"
    );
    assert_eq!(
        described(
            nats::client_ids_acknowledged(NatsServer::Inference, &vec![]).unwrap_err()
        ),
        "Failed to parse inference client IDs acknowledgement response: \
         cannot parse integer from empty string"
    );
}

#[test]
fn written_models_are_read_back() {
    let files = Some(ModelFilesBundle {
        metadata_json_bytes: vec![1, 2, 3],
        model_file_name: "model.onnx".to_string(),
        model_file_bytes: vec![0; 300],
    });
    let written = nats::write_model_files(&files).unwrap();
    let read = nats::handshake_decoded(Ok(written)).unwrap().unwrap();
    assert_eq!(read.metadata_json_bytes, vec![1, 2, 3]);
    assert_eq!(read.model_file_name, "model.onnx");
    assert_eq!(read.model_file_bytes, vec![0; 300]);

    let written = nats::write_model_files(&None).unwrap();
    assert!(nats::handshake_decoded(Ok(written)).unwrap().is_none());
}

#[test]
fn names_that_do_not_fit_are_refused() {
    let refused = |files: Vec<u8>| match nats::handshake_decoded(Ok(files)) {
        Err(e) => described(e),
        Ok(_) => panic!("expected an error"),
    };
    let mut huge = vec![0u8, 253];
    huge.extend([255u8; 8]);
    assert_eq!(
        refused(huge),
        "Failed to deserialize model files bundle response: \
         UnexpectedEnd { additional: 18446744073709551615 }"
    );
    let short = vec![1u8, 7, 5, 109, 46];
    let standard = bincode::config::standard();
    let why = bincode::serde::decode_from_slice::<(Vec<u8>, String, Vec<u8>), _>(&short, standard)
        .unwrap_err()
        .to_string();
    assert_eq!(why, "UnexpectedEnd { additional: 3 }");
    assert_eq!(
        refused(short),
        format!("Failed to deserialize model files bundle response: {}", why)
    );
    let not_text = vec![1u8, 7, 1, 255, 0];
    assert!(refused(not_text).contains("Utf8"));
    assert_eq!(check_announced(Ok((3, 2)), 5), Ok(()));
    assert_eq!(
        check_announced(Ok((4, 2)), 5),
        Err("UnexpectedEnd { additional: 1 }".to_string())
    );
    assert_eq!(check_announced(Err("no".to_string()), 5), Err("no".to_string()));
}

#[test]
fn handshake_answers_hold_the_files_of_a_model() {
    let standard = bincode::config::standard();
    let files = bincode::serde::encode_to_vec((vec![7u8], "m.pt", vec![8u8, 9]), standard).unwrap();
    let answer = bincode::serde::encode_to_vec(&files, standard).unwrap();
    let bundle = nats::handshake_received(&answer).unwrap().unwrap();
    assert_eq!(bundle.metadata_json_bytes, vec![7]);
    assert_eq!(bundle.model_file_name, "m.pt");
    assert_eq!(bundle.model_file_bytes, vec![8, 9]);

    let none: Vec<u8> = vec![];
    let answer = bincode::serde::encode_to_vec(&none, standard).unwrap();
    assert!(nats::handshake_received(&answer).unwrap().is_none());
    match nats::handshake_received(&vec![]) {
        Err(e) => assert!(
            described(e).starts_with("Failed to deserialize model handshake response response: ")
        ),
        Ok(_) => panic!("expected an error"),
    }
    let answer = bincode::serde::encode_to_vec(&vec![9u8], standard).unwrap();
    match nats::handshake_received(&answer) {
        Err(e) => assert!(
            described(e).starts_with("Failed to deserialize model files bundle response: ")
        ),
        Ok(_) => panic!("expected an error"),
    }
}

#[test]
fn model_file_names_are_read_from_metadata() {
    let read = |s: &str| nats::model_file_name(&s.as_bytes().to_vec());
    assert_eq!(read("{\"model_file\": \"net.pt\"}").unwrap(), "net.pt");
    assert_eq!(
        described(read("{\"model_file\": 3}").unwrap_err()),
        "metadata.json does not contain a valid 'model_file' field"
    );
    assert_eq!(
        described(read("{}").unwrap_err()),
        "metadata.json does not contain a valid 'model_file' field"
    );
    assert!(described(read("{").unwrap_err())
        .starts_with("Failed to parse metadata.json for model file name extraction: "));
    assert_eq!(
        described(BundleStep::ReadModelFile("net.pt".to_string()).failed("gone")),
        "Failed to read model file 'net.pt' from temporary directory: gone"
    );
    assert!(matches!(
        BundleStep::WriteMetadata.failed("full"),
        TransportError::ModelHandshakeError(m)
            if m == "Failed to write metadata.json to temporary directory: full"
    ));
}

#[test]
fn entries_are_checked_and_written() {
    assert!(validate_entry(&entry("n", "c", 1)).is_ok());
    assert_eq!(described(validate_entry(&entry("n", "c", 0)).unwrap_err()), "ID is nil");
    assert_eq!(
        described(validate_entry(&entry("n", "", 1)).unwrap_err()),
        "Context is empty"
    );
    assert_eq!(
        described(validate_entry(&entry("", "c", 1)).unwrap_err()),
        "Namespace is empty"
    );
    let id = "00000000-0000-0000-0000-00000000000a";
    assert_eq!(entry_text("n", "c", 10, ":"), format!("n:c:{}", id));
    let both = vec![entry("n", "c", 10), entry("m", "d", 10)];
    assert_eq!(spaced_list(&both), format!("n c {} m d {}", id, id));
    assert_eq!(colon_list("x", &both), format!("x:c:{},x:d:{}", id, id));
    assert_eq!(own_colon_list(&both), format!("n:c:{},m:d:{}", id, id));
    assert_eq!(spaced_list(&vec![]), "");
}

#[test]
fn addresses_are_taken_over_once() {
    let mut pool = cached_pool(9);
    let t = CacheAddressType::AgentListener;
    assert!(!pool.update_cache(9, "tcp://127.0.0.1:7779", t).unwrap());
    assert!(pool.update_cache(9, "tcp://host:1", t).unwrap());
    assert!(!pool.update_cache(9, "tcp://host:1", t).unwrap());
    let kept = pool.cached_addresses.as_ref().unwrap().get(&9).unwrap().clone();
    assert_eq!(kept.zmq_training_addresses.agent_listener_address, "tcp://host:1");
    assert_eq!(
        kept.zmq_training_addresses.model_server_address,
        "tcp://127.0.0.1:50051"
    );
    assert!(matches!(
        pool.update_cache(8, "tcp://host:1", t),
        Err(ZmqPoolError::ReadError(m)) if m == "Cached addresses not available"
    ));
    let mut empty = ZmqPool::new("test-client".to_string());
    assert!(empty.update_cache(9, "tcp://host:1", t).is_err());
}

#[test]
fn sockets_are_kept_in_their_pool() {
    let mut pool = cached_pool(9);
    let t = SocketPoolType::ScalingDealer;
    assert!(matches!(
        pool.store_socket(9, t, Err("no".to_string())),
        Err(ZmqPoolError::InitializationError(m))
            if m == "Failed to create ScalingDealer socket: no"
    ));
    assert!(matches!(
        pool.store_socket(9, t, Ok(4)),
        Err(ZmqPoolError::ReadError(m)) if m == "Socket pool not initialized"
    ));
    assert_eq!(
        described(pool.find_socket(ZmqOperation::ClientIds, 9).unwrap_err()),
        "Scaling dealer socket pool not initialized"
    );
    pool.cached_sockets.scaling_dealer_socket = Some(DashMap::new());
    assert_eq!(
        described(pool.find_socket(ZmqOperation::ClientIds, 9).unwrap_err()),
        "Scaling dealer socket not found for ID: 00000000-0000-0000-0000-000000000009"
    );
    assert!(pool.store_socket(9, t, Ok(4)).unwrap());
    assert_eq!(pool.find_socket(ZmqOperation::ClientIds, 9).unwrap(), 4);
    assert_eq!(SocketPoolType::TrajPush.kind(), SocketKind::Push);
    assert_eq!(SocketKind::Sub.identity_base(), 69);
}

#[test]
fn zmq_requests_are_framed() {
    let mut ops = ZmqTrainingOps::new(entry("ns", "zmq-client", 7), cached_pool(9));
    let e = entry("ns", "scaling", 9);
    let id7 = "00000000-0000-0000-0000-000000000007";
    let id9 = "00000000-0000-0000-0000-000000000009";
    let head = vec![
        vec![],
        format!("ns:zmq-client:{}", id7).into_bytes(),
        format!("ns:scaling:{}", id9).into_bytes(),
    ];
    let with = |more: Vec<Vec<u8>>| {
        let mut frames = head.clone();
        frames.extend(more);
        frames
    };
    let request = ops.execute_send_scaling_warning(&e, "tcp://s:1").unwrap();
    assert!(request.needs_socket);
    assert_eq!(request.identity, 9);
    assert_eq!(request.frames.unwrap(), with(vec![b"ROUTER_SCALE_WARNING".to_vec()]));
    let request = ops.execute_send_scaling_complete(&e, "tcp://s:1").unwrap();
    assert!(!request.needs_socket);
    assert_eq!(request.frames.unwrap(), with(vec![b"ROUTER_SCALE_COMPLETE".to_vec()]));
    let request = ops.execute_send_shutdown_signal(&e, "tcp://s:1").unwrap();
    assert_eq!(request.frames.unwrap(), with(vec![b"CLIENT_SHUTDOWN".to_vec()]));
    let request = ops.execute_initial_model_handshake(&e, "tcp://s:1").unwrap();
    assert_eq!(request.frames.unwrap(), with(vec![b"GET_MODEL".to_vec()]));
    let request = ops.execute_send_trajectory(&e, Ok(vec![1, 2]), "tcp://s:1").unwrap();
    assert_eq!(request.frames.unwrap(), with(vec![vec![1, 2]]));
    let request = ops
        .execute_send_client_ids(&e, &vec![entry("a", "b", 9)], "tcp://s:1")
        .unwrap();
    assert_eq!(request.frames.unwrap(), with(vec![format!("a b {}", id9).into_bytes()]));
    let request = ops
        .execute_send_algorithm_init_request(
            &e,
            &vec![entry("a", "actor", 9)],
            &Algorithm::CUSTOM("MAPPO".to_string()),
            Ok(()),
            "tcp://s:1",
        )
        .unwrap();
    assert_eq!(
        request.frames.unwrap(),
        with(vec![
            format!("ns:actor:{}", id9).into_bytes(),
            b"ALGORITHM_INIT".to_vec(),
            b"MAPPO".to_vec(),
        ])
    );
}

#[test]
fn what_cannot_be_serialized_is_not_framed() {
    let mut ops = ZmqTrainingOps::new(entry("ns", "zmq-client", 7), cached_pool(9));
    let e = entry("ns", "scaling", 9);
    let request = ops
        .execute_send_trajectory(&e, Err("too deep".to_string()), "tcp://s:1")
        .unwrap();
    assert!(request.needs_socket);
    assert_eq!(
        described(request.frames.unwrap_err()),
        "Failed to serialize trajectory: too deep"
    );
    let request = ops
        .execute_send_algorithm_init_request(
            &e,
            &vec![],
            &Algorithm::PPO,
            Err("not a number".to_string()),
            "tcp://s:1",
        )
        .unwrap();
    assert_eq!(
        described(request.frames.unwrap_err()),
        "Failed to serialize hyperparams: not a number"
    );
    assert_eq!(
        described(ModelFileStep::CreateFile.failed("full")),
        "Failed to create temp file: full"
    );
    assert_eq!(
        described(ModelFileStep::WriteFile.failed("full")),
        "Failed to write model to temp file: full"
    );
    assert_eq!(described(ModelFileStep::Load.failed("bad")), "Failed to load model: bad");
    assert_eq!(
        described(ModelFileStep::Validate.failed("bad")),
        "Failed to validate model: bad"
    );
}

#[test]
fn zmq_requests_go_through_a_socket() {
    let mut ops = ZmqTrainingOps::new(entry("ns", "zmq-client", 7), cached_pool(9));
    ops.pool.cached_sockets.scaling_dealer_socket = Some(DashMap::new());
    let e = entry("ns", "scaling", 9);
    let request = ops.execute_send_scaling_warning(&e, "tcp://s:1").unwrap();
    let expected = request.frames.as_ref().unwrap().clone();
    let mut run = ZmqRun::new(request);
    assert!(matches!(
        run.step(&mut ops.pool, ZmqEvent::Begun),
        ZmqAction::MakeSocket(SocketPoolType::ScalingDealer)
    ));
    match run.step(&mut ops.pool, ZmqEvent::SocketMade(Ok(5))) {
        ZmqAction::Send { socket, frames } => {
            assert_eq!(socket, 5);
            assert_eq!(frames, expected);
        }
        _ => panic!("expected frames"),
    }
    assert!(matches!(
        run.step(&mut ops.pool, ZmqEvent::Sent(SocketUse::Done(()))),
        ZmqAction::Receive { socket: 5 }
    ));
    let reply = vec![vec![], b"0".to_vec()];
    assert!(matches!(
        run.step(&mut ops.pool, ZmqEvent::Received(SocketUse::Done(reply))),
        ZmqAction::End(Ok(None))
    ));

    let again = ops.execute_send_scaling_complete(&e, "tcp://s:1").unwrap();
    let mut run = ZmqRun::new(again);
    assert!(matches!(
        run.step(&mut ops.pool, ZmqEvent::Begun),
        ZmqAction::Send { socket: 5, .. }
    ));
    let refused = run.step(&mut ops.pool, ZmqEvent::Sent(SocketUse::NotLocked("busy".to_string())));
    match refused {
        ZmqAction::End(Err(e)) => {
            assert!(described(e).ends_with(": busy"))
        }
        _ => panic!("expected a refusal"),
    }
}

#[test]
fn zmq_trajectories_await_no_reply() {
    let mut ops = ZmqTrainingOps::new(entry("ns", "zmq-client", 7), cached_pool(9));
    ops.pool.cached_sockets.traj_push_socket = Some(DashMap::new());
    let e = entry("ns", "buffer", 9);
    let request = ops.execute_send_trajectory(&e, Ok(vec![1]), "tcp://s:1").unwrap();
    let mut run = ZmqRun::new(request);
    run.step(&mut ops.pool, ZmqEvent::Begun);
    run.step(&mut ops.pool, ZmqEvent::SocketMade(Ok(6)));
    assert!(matches!(
        run.step(&mut ops.pool, ZmqEvent::Sent(SocketUse::Done(()))),
        ZmqAction::End(Ok(None))
    ));

    let unmade = ops
        .execute_send_trajectory(&e, Err("too deep".to_string()), "tcp://s:1")
        .unwrap();
    match ZmqRun::new(unmade).step(&mut ops.pool, ZmqEvent::Begun) {
        ZmqAction::End(Err(e)) => {
            assert_eq!(described(e), "Failed to serialize trajectory: too deep")
        }
        _ => panic!("expected nothing to be sent"),
    }
}

#[test]
fn zmq_handshakes_bring_models() {
    let mut ops = ZmqTrainingOps::new(entry("ns", "zmq-client", 7), cached_pool(9));
    let e = entry("ns", "actor", 9);
    let request = ops.execute_initial_model_handshake(&e, "tcp://s:1").unwrap();
    match ZmqRun::new(request).step(&mut ops.pool, ZmqEvent::Begun) {
        ZmqAction::MakeSocket(t) => assert_eq!(t, SocketPoolType::ModelDealer),
        _ => panic!("expected a socket to be made"),
    }
    let request = ops.execute_initial_model_handshake(&e, "tcp://s:2").unwrap();
    let mut run = ZmqRun::new(request);
    run.step(&mut ops.pool, ZmqEvent::Begun);
    assert!(matches!(
        run.step(&mut ops.pool, ZmqEvent::SocketMade(Err("no".to_string()))),
        ZmqAction::End(Err(TransportError::ZmqPool(ZmqPoolError::InitializationError(_))))
    ));
    ops.pool.cached_sockets.model_dealer_socket = Some(DashMap::new());
    let request = ops.execute_initial_model_handshake(&e, "tcp://s:3").unwrap();
    let mut run = ZmqRun::new(request);
    run.step(&mut ops.pool, ZmqEvent::Begun);
    run.step(&mut ops.pool, ZmqEvent::SocketMade(Ok(8)));
    run.step(&mut ops.pool, ZmqEvent::Sent(SocketUse::Done(())));
    match run.step(
        &mut ops.pool,
        ZmqEvent::Received(SocketUse::Done(vec![vec![], vec![3, 4]])),
    ) {
        ZmqAction::End(Ok(Some(model))) => assert_eq!(model, vec![3, 4]),
        _ => panic!("expected a model"),
    }
}

#[test]
fn zmq_listeners_are_planned() {
    let mut ops = ZmqTrainingOps::new(entry("ns", "zmq-client", 7), cached_pool(9));
    let e = entry("ns", "receiver", 9);
    assert_eq!(
        described(ops.execute_listen_for_model(&e, "tcp://s:2", true).err().unwrap()),
        "Model update transmitter is closed"
    );
    assert_eq!(
        described(ops.execute_listen_for_model(&entry("ns", "c", 0), "x", false).err().unwrap()),
        "ID is nil"
    );
    let plan = ops.execute_listen_for_model(&e, "tcp://s:2", false).unwrap().unwrap();
    assert!(plan.needs_socket);
    assert!(!ops.pool.listeners.is_stopping(&plan.handle));
    let again = ops.execute_listen_for_model(&e, "tcp://s:2", false).unwrap().unwrap();
    assert!(!again.needs_socket);
    assert!(ops.stop_model_listener(&e).is_ok());
    assert!(ops.pool.listeners.is_stopping(&again.handle));
    assert!(matches!(
        ops.execute_listen_for_model(&entry("ns", "receiver", 3), "tcp://s:2", false),
        Err(TransportError::ZmqPool(ZmqPoolError::ReadError(_)))
    ));
    assert!(matches!(ops.shutdown(), Err(TransportError::UuidPoolError(_))));
    assert!(ops.execute_listen_for_model(&e, "tcp://s:2", false).unwrap().is_none());
}

#[test]
fn zmq_requests_are_refused_without_an_entry_or_an_address() {
    let mut ops = ZmqTrainingOps::new(entry("ns", "zmq-client", 7), cached_pool(9));
    let e = entry("ns", "scaling", 9);
    assert_eq!(
        described(ops.execute_send_scaling_warning(&entry("ns", "c", 0), "").err().unwrap()),
        "ID is nil"
    );
    assert_eq!(
        described(ops.execute_send_scaling_warning(&e, "").err().unwrap()),
        "Scaling server address is empty"
    );
    assert_eq!(
        described(ops.execute_initial_model_handshake(&e, "").err().unwrap()),
        "Agent listener address is empty"
    );
    assert_eq!(
        described(ops.execute_send_trajectory(&e, Ok(vec![]), "").err().unwrap()),
        "Trajectory server address is empty"
    );
    assert!(matches!(
        ops.execute_send_shutdown_signal(&entry("ns", "scaling", 3), "tcp://s:1"),
        Err(TransportError::ZmqPool(ZmqPoolError::ReadError(_)))
    ));
    assert!(ops.stop_model_listener(&e).is_ok());
    assert!(ops.stop_model_listener(&entry("ns", "", 9)).is_err());
}

#[test]
fn zmq_replies_are_read() {
    let op = ZmqOperation::ScalingWarning;
    let reply = |s: &str| Ok(vec![vec![], s.as_bytes().to_vec()]);
    assert!(zmq::received_acknowledgement(op, reply("0")).is_ok());
    assert_eq!(
        described(zmq::received_acknowledgement(op, reply("2")).unwrap_err()),
        "Server failed to acknowledge scaling warning"
    );
    assert_eq!(
        described(zmq::received_acknowledgement(op, reply(" 0")).unwrap_err()),
        "Failed to parse scaling warning response: invalid digit found in string"
    );
    assert_eq!(
        described(zmq::received_acknowledgement(op, Ok(vec![vec![]])).unwrap_err()),
        "Malformed scaling warning response"
    );
    assert_eq!(
        described(zmq::received_acknowledgement(op, Err("late".to_string())).unwrap_err()),
        "Failed to receive scaling warning response: late"
    );
    assert_eq!(
        zmq::received_model(Ok(vec![vec![], vec![4, 5]])).unwrap(),
        vec![4, 5]
    );
    assert_eq!(
        described(zmq::received_model(Ok(vec![])).unwrap_err()),
        "Malformed handshake response"
    );
    assert_eq!(
        described(zmq::received_model(Err("late".to_string())).unwrap_err()),
        "Failed to receive model: late"
    );
    assert_eq!(
        described(zmq::sent(ZmqOperation::Trajectory, Err("x".to_string())).unwrap_err()),
        "Failed to send trajectory: x"
    );
    assert_eq!(
        described(zmq::locked(ZmqOperation::Trajectory, Err("x".to_string())).unwrap_err()),
        "Failed to lock push socket: x"
    );
    assert_eq!(ServerResponse::from_i64(0), ServerResponse::Success);
    assert_eq!(ServerResponse::from_i64(1), ServerResponse::Failure);
    assert_eq!(ServerResponse::from_i64(-7), ServerResponse::Failure);
}

#[test]
fn zmq_listeners_follow_events() {
    let e = entry("ns", "receiver", 9);
    assert!(zmq::begin_listening(&e, "tcp://m:1", false, false).unwrap());
    assert!(!zmq::begin_listening(&e, "tcp://m:1", false, true).unwrap());
    assert_eq!(
        described(zmq::begin_listening(&e, "", false, false).unwrap_err()),
        "Model server address is empty"
    );
    assert_eq!(
        described(zmq::begin_listening(&e, "tcp://m:1", true, false).unwrap_err()),
        "Model update transmitter is closed"
    );
    assert!(matches!(
        zmq::listen_step(ListenEvent::Turn { stopping: true }),
        ListenAction::End(Ok(()))
    ));
    assert!(matches!(
        zmq::listen_step(ListenEvent::Turn { stopping: false }),
        ListenAction::Receive
    ));
    assert!(matches!(
        zmq::listen_step(ListenEvent::TimedOut { stopping: false }),
        ListenAction::NextTurn
    ));
    let parts = make_model_update_message_parts([3; 16], 2, &[1]);
    assert!(matches!(
        zmq::listen_step(ListenEvent::Received(parts)),
        ListenAction::Forward(m) if m.actor_id == u128::from_be_bytes([3; 16])
    ));
    assert!(matches!(
        zmq::listen_step(ListenEvent::Received(vec![])),
        ListenAction::End(Err(_))
    ));
    match zmq::listen_step(ListenEvent::ReceiveFailed("x".to_string())) {
        ListenAction::End(Err(e)) => assert_eq!(described(e), "SUB socket recv error: x"),
        _ => panic!("expected an error"),
    }
    let failed = ListenEvent::ForwardFailed { why: "x".to_string(), stopping: false };
    match zmq::listen_step(failed) {
        ListenAction::End(Err(e)) => assert_eq!(
            described(e),
            "Failed to dispatch model update message to model update transmitter: x"
        ),
        _ => panic!("expected an error"),
    }
}

#[test]
fn zmq_shutdown_forgets_sockets_that_are_registered() {
    let mut pool = cached_pool(9);
    let push = DashMap::new();
    push.insert(0x77u128, 1u64);
    pool.cached_sockets.traj_push_socket = Some(push);
    add_id("client", "zmq_push_socket", Uuid::from_u128(0x77)).unwrap();
    add_id("zmq-shutdown-ns", "zmq-client", Uuid::from_u128(7)).unwrap();
    let mut ops = ZmqTrainingOps::new(entry("zmq-shutdown-ns", "zmq-client", 7), pool);
    assert!(ops.shutdown().is_ok());
    assert!(ops.is_shutting_down());
    assert!(ops.pool.cached_sockets.traj_push_socket.as_ref().unwrap().is_empty());
    assert!(!list_ids("client", "zmq_push_socket").contains(&Uuid::from_u128(0x77)));
    assert!(list_ids("zmq-shutdown-ns", "zmq-client").is_empty());
    // A second time the transport's own identifier is gone.
    assert!(matches!(ops.shutdown(), Err(TransportError::UuidPoolError(_))));

    let mut pool = cached_pool(9);
    let dealers = DashMap::new();
    dealers.insert(0x78u128, 1u64);
    pool.cached_sockets.inference_dealer_socket = Some(dealers);
    assert!(zmq::shutdown_inference(&mut pool).is_err());
    add_id("client", "zmq_dealer_socket", Uuid::from_u128(0x78)).unwrap();
    assert!(zmq::shutdown_inference(&mut pool).is_ok());
    assert!(pool.cached_sockets.inference_dealer_socket.as_ref().unwrap().is_empty());
}

#[test]
fn the_entries_of_all_training_sockets_are_removed_in_order() {
    let mut pool = cached_pool(9);
    let kept = |id: u128| {
        let sockets = DashMap::new();
        sockets.insert(id, 1u64);
        Some(sockets)
    };
    pool.cached_sockets.inference_dealer_socket = kept(0xa0);
    pool.cached_sockets.model_dealer_socket = kept(0xa1);
    pool.cached_sockets.model_sub_socket = kept(0xa2);
    pool.cached_sockets.traj_push_socket = None;
    pool.cached_sockets.scaling_dealer_socket = kept(0xa4);
    let mut ops = ZmqTrainingOps::new(entry("removals-ns", "zmq-client", 8), pool);
    let listed: Vec<(String, String, u128)> = ops
        .registry_removals()
        .into_iter()
        .map(|removal| (removal.entry.namespace, removal.entry.context, removal.entry.id))
        .collect();
    let text = |s: &str| s.to_string();
    assert_eq!(
        listed,
        vec![
            (text("client"), text("zmq_dealer_socket"), 0xa1),
            (text("client"), text("zmq_sub_socket"), 0xa2),
            (text("client"), text("zmq_dealer_socket"), 0xa4),
            (text("removals-ns"), text("zmq-client"), 8),
        ]
    );
    // The first refusal ends it: only the sockets before it are forgotten.
    add_id("client", "zmq_dealer_socket", Uuid::from_u128(0xa1)).unwrap();
    match ops.shutdown() {
        Err(TransportError::UuidPoolError(why)) => assert_eq!(
            why.to_string(),
            "Failed to remove UUID from pool: Failed to locate/remove UUID in pool"
        ),
        _ => panic!("expected a refusal of the registry"),
    }
    let sockets = &ops.pool.cached_sockets;
    assert!(sockets.model_dealer_socket.as_ref().unwrap().is_empty());
    assert_eq!(sockets.model_sub_socket.as_ref().unwrap().len(), 1);
    assert_eq!(sockets.scaling_dealer_socket.as_ref().unwrap().len(), 1);
    assert_eq!(sockets.inference_dealer_socket.as_ref().unwrap().len(), 1);
}

#[test]
fn inference_shuts_down_where_there_are_no_sockets() {
    let mut pool = cached_pool(9);
    pool.cached_sockets.inference_dealer_socket = None;
    assert!(zmq::shutdown_inference(&mut pool).is_ok());
    pool.cached_sockets.inference_dealer_socket = Some(DashMap::new());
    assert!(zmq::shutdown_inference(&mut pool).is_ok());
}

#[test]
fn errors_of_the_socket_pool_are_described() {
    let text = |m: &str| m.to_string();
    assert_eq!(ZmqPoolError::SocketError(text("x")).message(), "x");
    assert_eq!(ZmqPoolError::ReadError(text("x")).message(), "Failed to read ZMQ pool: x");
    assert_eq!(
        ZmqPoolError::InitializationError(text("x")).message(),
        "Failed to initialize ZMQ pool: x"
    );
    let refused = UuidPoolError::FailedToFindUuidInPoolError(text("x"));
    assert_eq!(
        ZmqPoolError::UuidPoolError(refused).message(),
        "Failed to find UUID in pool: x"
    );
}

#[test]
fn socket_identities_are_reserved_by_kind() {
    let pool = ZmqPool::new("identities-ns".to_string());
    let slot = pool.identity_slot(SocketKind::Push);
    assert_eq!((slot.namespace.as_str(), slot.context.as_str()), ("identities-ns", "zmq-client"));
    assert_eq!((slot.base, slot.max_retries), (67, 100));
    let slot = NatsInterface::client_slot("identities-ns");
    assert_eq!(slot.namespace, "identities-ns");
    assert_eq!((slot.base, slot.max_retries), (42, 100));
    let identity = pool.reserve_identity(SocketKind::Sub).ok().unwrap();
    assert_eq!(identity >> 96, 69);
    assert!(list_ids("identities-ns", ZMQ_CLIENT_CONTEXT).contains(&Uuid::from_u128(identity)));
    let owner = reserve_owned_namespace("owned-identities-ns").unwrap();
    let pool = ZmqPool::new("owned-identities-ns".to_string());
    match pool.reserve_identity(SocketKind::Push) {
        Err(ZmqPoolError::UuidPoolError(why)) => assert_eq!(
            why.to_string(),
            "Unauthorized write access to namespace \
             'Unauthorized write access to namespace 'owned-identities-ns''"
        ),
        _ => panic!("expected a refusal of the registry"),
    }
    let modes = ClientModes {
        actor_inference_mode: ActorInferenceMode::Local(ModelMode::Shared),
        actor_training_data_mode: ActorTrainingDataMode::Disabled,
    };
    assert!(matches!(
        NatsInterface::new("owned-identities-ns", &modes),
        Err(TransportError::UuidPoolError(_))
    ));
    drop(owner);
}

#[test]
fn record_failure_opens_circuit_at_threshold() {
    let mut breaker = nats_policies::CircuitBreaker::new(2, 30 * SECOND);
    breaker.record_failure(0);
    assert_eq!(breaker.state(), CircuitState::Closed);
    breaker.record_failure(0);
    assert_eq!(breaker.state(), CircuitState::Open);
}

#[test]
fn is_open_transitions_to_half_open_after_cooldown() {
    let mut breaker = nats_policies::CircuitBreaker::new(1, 0);
    breaker.record_failure(5);
    assert!(!breaker.is_open(5));
    assert_eq!(breaker.state(), CircuitState::HalfOpen);
}

#[test]
fn record_success_clears_failures_and_closes_circuit() {
    let mut breaker = nats_policies::CircuitBreaker::new(1, 30 * SECOND);
    breaker.record_failure(0);
    breaker.record_success();
    assert_eq!(breaker.state(), CircuitState::Closed);
    assert_eq!(breaker.failure_count(), 0);
    assert!(!breaker.is_open(0));
}

#[test]
fn an_open_circuit_refuses_until_it_has_cooled_down() {
    let mut nats = nats_policies::CircuitBreaker::new(1, 30 * SECOND);
    let mut zmq = zmq_policies::CircuitBreaker::new(1, 30 * SECOND);
    nats.record_failure(SECOND);
    zmq.record_failure(SECOND);
    assert!(nats.is_open(30 * SECOND));
    assert!(zmq.is_open(30 * SECOND));
    assert!(!nats.is_open(31 * SECOND));
    assert!(!zmq.is_open(31 * SECOND));
    assert_eq!(nats.state(), CircuitState::HalfOpen);
    assert_eq!(zmq.state(), CircuitState::HalfOpen);
    // Over NATS further requests pass; over ZeroMQ only the test request does.
    assert!(!nats.is_open(32 * SECOND));
    assert!(zmq.is_open(32 * SECOND));
    zmq.record_failure(33 * SECOND);
    assert_eq!(zmq.state(), CircuitState::Open);
    zmq.record_success();
    assert!(!zmq.is_open(34 * SECOND));
}

#[test]
fn policies_have_their_numbers() {
    let p = nats_policies::NatsPolicyConfig::for_scaling();
    assert_eq!(p.circuit_breaker_threshold, 3);
    assert_eq!(p.circuit_breaker_duration, 60 * SECOND);
    assert_eq!(p.max_concurrent_requests, 5);
    assert_eq!(p.timeout, 120 * SECOND);
    assert_eq!(p.retry_policy.max_attempts, 5);
    let p = zmq_policies::ZmqPolicyConfig::for_inference();
    assert_eq!(p.circuit_breaker_threshold, 10);
    assert_eq!(p.max_concurrent_requests, 100);
    assert_eq!(p.timeout, 5 * SECOND);
    assert_eq!(RetryPolicy::default().max_attempts, 3);
    assert_eq!(RetryPolicy::no_retries().max_attempts, 0);
    assert_eq!(RetryPolicy::aggressive().backoff_multiplier.text, "1.5");
}

#[test]
fn permits_are_limited() {
    let mut controller = BackpressureController::new(1);
    let permit = controller.try_acquire().unwrap();
    assert_eq!(controller.available_permits(), 0);
    assert_eq!(controller.max_concurrent(), 1);
    assert!(matches!(
        controller.try_acquire(),
        Err(TransportError::BackpressureExceeded)
    ));
    assert!(controller.acquire().is_none());
    controller.release(permit);
    assert!(controller.acquire().is_some());
}

fn online_modes() -> ClientModes {
    ClientModes {
        actor_inference_mode: ActorInferenceMode::Local(ModelMode::Independent),
        actor_training_data_mode: ActorTrainingDataMode::Online(TrainingServerParams {
            training_addresses: None,
        }),
    }
}

#[test]
fn policies_are_in_force_where_servers_take_part() {
    let offline = ClientModes {
        actor_inference_mode: ActorInferenceMode::Local(ModelMode::Shared),
        actor_training_data_mode: ActorTrainingDataMode::OfflineWithMemory,
    };
    let interface = NatsInterface::for_modes("c", &offline);
    assert!(interface.scaling_protocol.is_none());
    assert_eq!(interface.scaling_round(), (false, false));
    let interface = NatsInterface::for_modes("c", &online_modes());
    assert!(interface.scaling_protocol.is_some());
    assert_eq!(interface.scaling_round(), (false, true));
    let server = ClientModes {
        actor_inference_mode: ActorInferenceMode::Server(InferenceServerParams {
            inference_addresses: None,
        }),
        actor_training_data_mode: ActorTrainingDataMode::Disabled,
    };
    let interface = NatsInterface::new("interface-ns", &server).unwrap();
    assert_eq!(interface.scaling_round(), (true, false));
    assert_eq!(interface.ops.transport_context, "nats-client");
    assert_eq!(
        list_ids("interface-ns", "nats-client").len(),
        1
    );
    let retries = |kind: &Option<NatsProtocol>| {
        let policy = &kind.as_ref().unwrap().config.retry_policy;
        let multiplier = policy.backoff_multiplier.text.clone();
        (policy.max_attempts, policy.initial_delay, policy.max_delay, multiplier)
    };
    let millis = SECOND / 1000;
    assert_eq!(
        retries(&interface.inference_protocol),
        (2, 50 * millis, SECOND, "2".to_string())
    );
    assert_eq!(
        retries(&interface.scaling_protocol),
        (5, 50 * millis, 5 * SECOND, "1.5".to_string())
    );
    let online = NatsInterface::for_modes("c", &online_modes());
    assert_eq!(
        retries(&online.training_protocol),
        (3, 100 * millis, 10 * SECOND, "2".to_string())
    );
}

#[test]
fn requests_are_tried_again_and_given_up() {
    let mut interface = NatsInterface::for_modes("c", &online_modes());
    let mut run = RequestRun::new(ProtocolKind::Training);
    assert!(matches!(
        run.step(&mut interface, RequestEvent::Asked, 0),
        RequestAction::Attempt
    ));
    let permits = |i: &NatsInterface| {
        i.training_protocol.as_ref().unwrap().backpressure.available_permits()
    };
    assert_eq!(permits(&interface), 19);
    let mut tries = 0;
    let outcome = loop {
        tries += 1;
        let failed = AttemptOutcome::Failed { cause: "down".to_string() };
        match run.step(&mut interface, RequestEvent::Attempted(failed), tries) {
            RequestAction::Pause { attempt } => {
                assert_eq!(attempt as u64, tries);
                assert!(matches!(
                    run.step(&mut interface, RequestEvent::Paused, tries),
                    RequestAction::Attempt
                ));
            }
            RequestAction::End(outcome) => break outcome,
            _ => panic!("expected a pause or an end"),
        }
    };
    assert_eq!(tries, 4);
    match outcome {
        Err(TransportError::MaxRetriesExceeded { cause, attempts }) => {
            assert_eq!(cause, "down");
            assert_eq!(attempts, 3);
        }
        _ => panic!("expected the request to be given up"),
    }
    assert_eq!(permits(&interface), 20);
    assert_eq!(
        interface.training_protocol.as_ref().unwrap().circuit_breaker.failure_count(),
        4
    );
}

#[test]
fn timeouts_and_successes_are_recorded() {
    let mut interface = NatsInterface::for_modes("c", &online_modes());
    let late = AttemptOutcome::TimedOut { description: "deadline has elapsed".to_string() };
    match interface.after_attempt(ProtocolKind::Training, 3, late, 1) {
        RetryAction::GiveUp(TransportError::MaxRetriesExceeded { cause, .. }) => {
            assert_eq!(cause, "timeout: deadline has elapsed")
        }
        _ => panic!("expected the request to be given up"),
    }
    assert!(matches!(
        interface.after_attempt(ProtocolKind::Training, 0, AttemptOutcome::Succeeded, 2),
        RetryAction::Done
    ));
    assert_eq!(
        interface.training_protocol.as_ref().unwrap().circuit_breaker.failure_count(),
        0
    );
    match interface.begin(ProtocolKind::Inference, 0) {
        Err(TransportError::InvalidState(m)) => {
            assert_eq!(m, "Inference protocol not initialized")
        }
        _ => panic!("expected a missing policy"),
    }
}

#[test]
fn open_circuits_and_full_policies_hold_requests_back() {
    let mut interface = NatsInterface::for_modes("c", &online_modes());
    interface.training_protocol.as_mut().unwrap().backpressure = BackpressureController::new(0);
    assert!(matches!(
        interface.begin(ProtocolKind::Training, 0),
        Ok(Admission::Wait)
    ));
    let mut interface = NatsInterface::for_modes("c", &online_modes());
    for _ in 0..5 {
        let failed = AttemptOutcome::Failed { cause: String::new() };
        interface.after_attempt(ProtocolKind::Training, 9, failed, 0);
    }
    assert!(matches!(
        interface.begin(ProtocolKind::Training, 1),
        Err(TransportError::CircuitOpen)
    ));
    assert!(matches!(
        interface.begin_listening(1, false),
        Err(TransportError::CircuitOpen)
    ));
    assert!(matches!(interface.begin_listening(30 * SECOND, true), Ok(false)));
    assert!(matches!(
        interface.after_listening(0, Some("x".to_string()), true, 0),
        RetryAction::Done
    ));
    assert!(matches!(
        interface.after_listening(0, Some("x".to_string()), false, 0),
        RetryAction::PauseThenRetry { attempt: 1 }
    ));
    assert_eq!(ProtocolKind::of(NatsOperation::Trajectory), ProtocolKind::Training);
    assert_eq!(ProtocolKind::of(NatsOperation::InferenceShutdown), ProtocolKind::Inference);
}

fn both_servers() -> ClientModes {
    ClientModes {
        actor_inference_mode: ActorInferenceMode::Server(InferenceServerParams {
            inference_addresses: None,
        }),
        ..online_modes()
    }
}

#[test]
fn scaling_rounds_ask_each_server_in_force() {
    let mut interface = NatsInterface::for_modes("c", &both_servers());
    let mut run = ScalingRun::new();
    match run.step(&mut interface, ScalingEvent::Asked, 0) {
        ScalingAction::StartRound { inference, training } => assert!(inference && training),
        _ => panic!("expected a round"),
    }
    for server in [NatsServer::Inference, NatsServer::Training] {
        assert!(matches!(
            run.step(&mut interface, ScalingEvent::AtServer(server, RequestEvent::Asked), 0),
            ScalingAction::GoOn(RequestAction::Attempt)
        ));
    }
    let done = RequestEvent::Attempted(AttemptOutcome::Succeeded);
    assert!(matches!(
        run.step(&mut interface, ScalingEvent::AtServer(NatsServer::Training, done), 1),
        ScalingAction::AwaitOther
    ));
    let mut tries = 0;
    let (inference, training) = loop {
        tries += 1;
        let failed =
            RequestEvent::Attempted(AttemptOutcome::Failed { cause: "down".to_string() });
        match run.step(
            &mut interface,
            ScalingEvent::AtServer(NatsServer::Inference, failed),
            tries,
        ) {
            ScalingAction::GoOn(RequestAction::Pause { .. }) => {
                assert!(matches!(
                    run.step(
                        &mut interface,
                        ScalingEvent::AtServer(NatsServer::Inference, RequestEvent::Paused),
                        tries,
                    ),
                    ScalingAction::GoOn(RequestAction::Attempt)
                ));
            }
            ScalingAction::Combine(inference, training) => break (inference, training),
            _ => panic!("expected a pause or the end of the round"),
        }
    };
    assert!(matches!(inference, Some(Err(TransportError::MaxRetriesExceeded { .. }))));
    assert!(matches!(training, Some(Ok(()))));
    let combined = AttemptOutcome::Failed { cause: "inference".to_string() };
    assert!(matches!(
        run.step(&mut interface, ScalingEvent::Combined(combined), 9),
        ScalingAction::Pause { attempt: 1 }
    ));
    assert!(matches!(
        run.step(&mut interface, ScalingEvent::Paused, 9),
        ScalingAction::StartRound { .. }
    ));
}

#[test]
fn scaling_ends_with_its_rounds() {
    let mut interface = NatsInterface::for_modes("c", &online_modes());
    let mut run = ScalingRun::new();
    assert!(matches!(
        run.step(&mut interface, ScalingEvent::Asked, 0),
        ScalingAction::StartRound { inference: false, training: true }
    ));
    let at = |e: RequestEvent| ScalingEvent::AtServer(NatsServer::Training, e);
    run.step(&mut interface, at(RequestEvent::Asked), 0);
    assert!(matches!(
        run.step(
            &mut interface,
            at(RequestEvent::Attempted(AttemptOutcome::Succeeded)),
            1
        ),
        ScalingAction::Combine(None, Some(Ok(())))
    ));
    assert!(matches!(
        run.step(&mut interface, ScalingEvent::Combined(AttemptOutcome::Succeeded), 2),
        ScalingAction::End(Ok(()))
    ));
    let permits = interface.scaling_protocol.as_ref().unwrap().backpressure.available_permits();
    assert_eq!(permits, 5);

    let offline = ClientModes {
        actor_inference_mode: ActorInferenceMode::Local(ModelMode::Shared),
        actor_training_data_mode: ActorTrainingDataMode::Disabled,
    };
    let mut interface = NatsInterface::for_modes("c", &offline);
    match ScalingRun::new().step(&mut interface, ScalingEvent::Asked, 0) {
        ScalingAction::End(Err(TransportError::InvalidState(m))) => {
            assert_eq!(m, "Scaling protocol not initialized")
        }
        _ => panic!("expected a missing policy"),
    }
}
