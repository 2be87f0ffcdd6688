//! The state of a client's actors.

use active_uuid_registry::interface::{
    add_id, reserve_id_with, reserve_namespace, reserve_owned_namespace,
};
use active_uuid_registry::registry_uuid::Uuid;
use relayrl_framework::errors::StateManagerError;
use relayrl_framework::messages::{RoutedPayload, RoutingProtocol};
use relayrl_framework::modes::{ActorInferenceMode, ActorTrainingDataMode, ClientModes, ModelMode};
use relayrl_framework::paths::FilePath;
use relayrl_framework::state::{
    awaits_end, is_listed, model_source, shutdown_message, shutdown_timeout, ActorTokens,
    ModelLoad, ModelSource, StateManager, ACTOR_CONTEXT,
};

const CPU: u64 = 0;
const CUDA: u64 = 1;

fn disabled_modes() -> ClientModes {
    ClientModes {
        actor_inference_mode: ActorInferenceMode::Local(ModelMode::Independent),
        actor_training_data_mode: ActorTrainingDataMode::Disabled,
    }
}

fn shared_modes() -> ClientModes {
    ClientModes {
        actor_inference_mode: ActorInferenceMode::Local(ModelMode::Shared),
        actor_training_data_mode: ActorTrainingDataMode::Disabled,
    }
}

fn make_state_manager(name: &str, modes: ClientModes) -> StateManager {
    StateManager::new(format!("test-sm-{}", name), modes)
}

fn nothing_loaded() -> ModelLoad {
    ModelLoad { source: ModelSource::Nowhere, failed: false }
}

fn actor_tokens(n: u64) -> ActorTokens {
    ActorTokens { inbox: 100 + n, model: 200 + n, handle: 300 + n }
}

fn scattered_ids() -> Vec<u128> {
    vec![
        0xd0000000_0000_0000_0000_000000000001,
        0x10000000_0000_0000_0000_000000000002,
        0x70000000_0000_0000_0000_000000000003,
    ]
}

fn registered_ids(sm: &StateManager) -> Vec<u128> {
    sm.registered_actors().iter().map(|entry| entry.id).collect()
}

fn refusal(outcome: Result<(), StateManagerError>) -> String {
    match outcome {
        Err(StateManagerError::UuidPoolError(why)) => why.to_string(),
        _ => panic!("expected a refusal of the registry"),
    }
}

#[test]
fn refusals_of_the_registry_say_why() {
    let mut sm = make_state_manager("refusals", disabled_modes());
    assert!(sm.registered_actors().is_empty());
    assert_eq!(
        refusal(sm.remove_actor(5).outcome),
        "Failed to remove UUID from pool: Failed to locate/remove UUID in pool"
    );
    sm.actor_handles.insert(1, 9);
    sm.actor_inboxes.insert(1, 8);
    assert_eq!(
        refusal(sm.set_actor_id(1, 2)),
        "Failed to find UUID in pool: Failed to find UUID in pool for namespace-context \
         'test-sm-refusals':'actor': 00000000-0000-0000-0000-000000000001"
    );
    add_id(&sm.client_namespace, ACTOR_CONTEXT, Uuid::from_u128(2)).unwrap();
    add_id(&sm.client_namespace, ACTOR_CONTEXT, Uuid::from_u128(3)).unwrap();
    // The actor goes by its new identifier although the registry refused.
    assert!(sm.actor_handles.get(&2).is_some());
    assert_eq!(
        refusal(sm.set_actor_id(2, 3)),
        "Failed to replace UUID in pool: Failed to insert new UUID in pool for namespace-context \
         'test-sm-refusals':'actor': 00000000-0000-0000-0000-000000000003"
    );
    let owned = make_state_manager("owned-refusals", disabled_modes());
    let owner = reserve_owned_namespace(&owned.client_namespace).unwrap();
    let mut owned = owned;
    owned.actor_handles.insert(1, 9);
    owned.actor_inboxes.insert(1, 8);
    let why = "Unauthorized write access to namespace \
               'Unauthorized write access to namespace 'test-sm-owned-refusals''";
    assert_eq!(refusal(owned.set_actor_id(1, 2)), why);
    assert_eq!(refusal(owned.remove_actor(2).outcome), why);
    drop(owner);
    let entry = sm.actor_entry(7);
    assert_eq!(entry.namespace, "test-sm-refusals");
    assert_eq!(entry.context, "actor");
    assert_eq!(entry.id, 7);
}

#[test]
fn devices_keep_their_shared_model_whatever_comes_between() {
    let mut sm = make_state_manager("kept-model", shared_modes());
    let first = sm.get_or_init_model_handle(CPU, nothing_loaded(), 500).ok().unwrap();
    assert_eq!(first, (500, true));
    sm.new_actor(1, "r".to_string(), CUDA, nothing_loaded(), actor_tokens(1));
    sm.new_actor(2, "r".to_string(), CPU, nothing_loaded(), actor_tokens(2));
    sm.remove_actor(1);
    let load = ModelLoad { source: ModelSource::Parameter, failed: false };
    let second = sm.get_or_init_model_handle(CPU, load, 501).ok().unwrap();
    assert_eq!(second, (500, false));
}

#[test]
fn distribute_actors_round_robin_2_routers() {
    let mut sm = make_state_manager("round", disabled_modes());
    let actor_ids: Vec<u128> = vec![11, 12, 13, 14];
    for id in &actor_ids {
        sm.actor_handles.insert(*id, 1);
    }
    sm.distribute_actors(vec!["r1".to_string(), "r2".to_string()]);
    assert_eq!(sm.actor_router_addresses.len(), 4);
    let mut first = 0;
    for id in &actor_ids {
        let assigned = sm.router_of(*id).unwrap();
        assert!(assigned == "r1" || assigned == "r2");
        if assigned == "r1" {
            first += 1;
        }
    }
    assert_eq!(first, 2);
}

#[test]
fn actors_are_dealt_to_routers_in_turn() {
    let mut sm = make_state_manager("dealt", disabled_modes());
    sm.deal_routers(
        &vec![5, 6, 7],
        &vec!["r1".to_string(), "r2".to_string()],
    );
    assert_eq!(sm.router_of(5).unwrap(), "r1");
    assert_eq!(sm.router_of(6).unwrap(), "r2");
    assert_eq!(sm.router_of(7).unwrap(), "r1");
    assert!(sm.router_of(8).is_none());
}

#[test]
fn distribute_actors_empty_namespaces_is_noop() {
    let mut sm = make_state_manager("noop", disabled_modes());
    sm.actor_handles.insert(21, 1);
    sm.actor_router_addresses.insert(21, "original".to_string());
    sm.distribute_actors(vec![]);
    assert_eq!(sm.router_of(21).unwrap(), "original");
}

#[test]
fn distribute_actors_single_namespace() {
    let mut sm = make_state_manager("single", disabled_modes());
    for id in [31u128, 32, 33] {
        sm.actor_handles.insert(id, 1);
    }
    sm.distribute_actors(vec!["only".to_string()]);
    for id in [31u128, 32, 33] {
        assert_eq!(sm.router_of(id).unwrap(), "only");
    }
}

#[test]
fn restore_replaces_all_mappings() {
    let mut sm = make_state_manager("restore", disabled_modes());
    let old_id: u128 = 41;
    let new_id: u128 = 42;
    sm.actor_router_addresses.insert(old_id, "old".to_string());
    sm.restore_actor_router_mappings(vec![(new_id, "new".to_string())]);
    assert!(!sm.actor_router_addresses.contains_key(&old_id));
    assert_eq!(sm.router_of(new_id).unwrap(), "new");
}

#[test]
fn restore_with_empty_clears_all() {
    let mut sm = make_state_manager("clear", disabled_modes());
    sm.actor_router_addresses.insert(51, "ns".to_string());
    sm.restore_actor_router_mappings(vec![]);
    assert!(sm.actor_router_addresses.is_empty());
}

#[test]
fn get_returns_all_inserted_mappings() {
    let sm = make_state_manager("mappings", disabled_modes());
    sm.actor_router_addresses.insert(61, "r1".to_string());
    sm.actor_router_addresses.insert(62, "r2".to_string());
    sm.actor_router_addresses.insert(63, "r3".to_string());
    let result = sm.get_actor_router_mappings();
    assert_eq!(result.len(), 3);
    assert!(result.iter().any(|(id, ns)| *id == 61 && ns == "r1"));
    assert!(result.iter().any(|(id, ns)| *id == 62 && ns == "r2"));
    assert!(result.iter().any(|(id, ns)| *id == 63 && ns == "r3"));
}

#[test]
fn the_last_mapping_of_an_actor_holds() {
    let mut sm = make_state_manager("last", disabled_modes());
    sm.restore_actor_router_mappings(vec![
        (1, "a".to_string()),
        (2, "b".to_string()),
        (1, "c".to_string()),
    ]);
    assert_eq!(sm.router_of(1).unwrap(), "c");
    assert_eq!(sm.router_of(2).unwrap(), "b");
    assert!(sm.router_of(3).is_none());
}

#[test]
fn get_actor_id_list_reflects_inserted_handles() {
    let sm = make_state_manager("list", disabled_modes());
    for id in scattered_ids() {
        sm.actor_handles.insert(id, 1);
    }
    let list = sm.get_actor_id_list();
    assert_eq!(list.len(), 3);
    for id in scattered_ids() {
        assert!(list.contains(&id));
    }
}

#[test]
fn remove_actor_clears_device_and_router_metadata() {
    let mut sm = make_state_manager("remove", disabled_modes());
    reserve_namespace(&sm.client_namespace);
    let actor_id = reserve_id_with(&sm.client_namespace, ACTOR_CONTEXT, 117, 100)
        .unwrap()
        .as_u128();
    sm.actor_handles.insert(actor_id, 9);
    sm.actor_inboxes.insert(actor_id, 8);
    sm.actor_devices.insert(actor_id, CPU);
    sm.actor_router_addresses.insert(actor_id, "router-a".to_string());

    let removed = sm.remove_actor(actor_id);

    assert!(removed.outcome.is_ok());
    assert_eq!(removed.handle, Some(9));
    assert!(sm.actor_handles.get(&actor_id).is_none());
    assert!(sm.actor_inboxes.get(&actor_id).is_none());
    assert!(sm.actor_devices.get(&actor_id).is_none());
    assert!(sm.actor_router_addresses.get(&actor_id).is_none());
    assert!(!awaits_end(&sm.registered_actors(), actor_id));
}

#[test]
fn removing_an_unregistered_actor_is_reported() {
    let mut sm = make_state_manager("unregistered", disabled_modes());
    let removed = sm.remove_actor(77);
    assert!(matches!(removed.outcome, Err(StateManagerError::UuidPoolError(_))));
    assert_eq!(removed.handle, None);
}

#[test]
fn set_actor_id_moves_device_and_router_metadata() {
    let mut sm = make_state_manager("rename", disabled_modes());
    reserve_namespace(&sm.client_namespace);
    let current_id = reserve_id_with(&sm.client_namespace, ACTOR_CONTEXT, 117, 100)
        .unwrap()
        .as_u128();
    let new_id: u128 = 0x1234;
    sm.actor_handles.insert(current_id, 9);
    sm.actor_inboxes.insert(current_id, 8);
    sm.actor_devices.insert(current_id, CPU);
    sm.actor_router_addresses.insert(current_id, "router-a".to_string());

    sm.set_actor_id(current_id, new_id).ok().unwrap();

    assert!(sm.actor_handles.get(&current_id).is_none());
    assert!(sm.actor_inboxes.get(&current_id).is_none());
    assert!(sm.actor_devices.get(&current_id).is_none());
    assert!(sm.actor_router_addresses.get(&current_id).is_none());
    assert!(sm.actor_handles.get(&new_id).is_some());
    assert!(sm.actor_inboxes.get(&new_id).is_some());
    assert!(matches!(sm.actor_devices.get(&new_id), Some(device) if *device == CPU));
    assert_eq!(sm.router_of(new_id).unwrap(), "router-a");
    assert_eq!(registered_ids(&sm), vec![new_id]);
    assert!(awaits_end(&sm.registered_actors(), new_id));
    assert!(!awaits_end(&sm.registered_actors(), current_id));

    // The old name again, and nothing has changed.
    sm.set_actor_id(new_id, current_id).ok().unwrap();
    assert!(sm.actor_handles.get(&new_id).is_none());
    assert_eq!(sm.router_of(current_id).unwrap(), "router-a");
    assert_eq!(registered_ids(&sm), vec![current_id]);
    let listed = sm.registered_actors();
    assert_eq!(listed[0].namespace, sm.client_namespace);
    assert_eq!(listed[0].context, ACTOR_CONTEXT);
}

#[test]
fn set_actor_id_refuses_unknown_and_taken_identifiers() {
    let mut sm = make_state_manager("refuse", disabled_modes());
    match sm.set_actor_id(1, 2) {
        Err(StateManagerError::ActorHandleNotFoundError(m)) => assert_eq!(
            m,
            "[StateManager] Actor ID 00000000-0000-0000-0000-000000000001 not found"
        ),
        _ => panic!("expected an unknown actor"),
    }
    sm.actor_handles.insert(1, 9);
    match sm.set_actor_id(1, 2) {
        Err(StateManagerError::ActorInboxNotFoundError(m)) => assert_eq!(
            m,
            "[StateManager] Actor ID 00000000-0000-0000-0000-000000000001 not found"
        ),
        _ => panic!("expected an actor without an inbox"),
    }
    sm.actor_inboxes.insert(1, 8);
    sm.actor_inboxes.insert(2, 7);
    match sm.set_actor_id(1, 2) {
        Err(StateManagerError::ActorAlreadyTakenError(m)) => assert_eq!(
            m,
            "[StateManager] Actor ID 00000000-0000-0000-0000-000000000002 already taken"
        ),
        _ => panic!("expected a taken identifier"),
    }
}

#[test]
fn model_update_dispatch_targets_returns_all_actor_ids_in_independent_mode() {
    let sm = make_state_manager("independent", disabled_modes());
    for id in scattered_ids() {
        sm.actor_handles.insert(id, 1);
    }
    let mut expected = scattered_ids();
    expected.sort_by_key(|id| Uuid::from_u128(*id).to_string());
    assert_eq!(sm.model_update_dispatch_targets(), expected);
}

#[test]
fn model_update_dispatch_targets_deduplicates_shared_mode_by_device() {
    let sm = make_state_manager("shared", shared_modes());
    for id in scattered_ids() {
        sm.actor_handles.insert(id, 1);
        sm.actor_devices.insert(id, CPU);
    }
    let expected_target = scattered_ids()
        .into_iter()
        .min_by_key(|id| Uuid::from_u128(*id).to_string())
        .unwrap();
    assert_eq!(sm.model_update_dispatch_targets(), vec![expected_target]);
}

#[test]
fn model_update_dispatch_targets_for_subset_returns_known_actor_ids_in_independent_mode() {
    let sm = make_state_manager("subset", disabled_modes());
    for id in [1u128, 2, 3] {
        sm.actor_handles.insert(id, 1);
    }
    let subset: Vec<u128> = vec![3, 9, 1, 3];
    assert_eq!(
        sm.model_update_dispatch_targets_for_subset(Some(&subset)),
        vec![1, 3]
    );
}

#[test]
fn model_update_dispatch_targets_for_subset_ignores_unknown_actor_ids() {
    let sm = make_state_manager("unknown", disabled_modes());
    sm.actor_handles.insert(1, 1);
    let subset: Vec<u128> = vec![2];
    assert!(sm.model_update_dispatch_targets_for_subset(Some(&subset)).is_empty());
    let subset: Vec<u128> = vec![2, 1];
    assert_eq!(
        sm.model_update_dispatch_targets_for_subset(Some(&subset)),
        vec![1]
    );
}

#[test]
fn model_update_dispatch_targets_for_subset_deduplicates_selected_shared_devices() {
    let sm = make_state_manager("devices", shared_modes());
    for (id, device) in [(1u128, CPU), (2, CPU), (3, CUDA), (4, CUDA)] {
        sm.actor_handles.insert(id, 1);
        sm.actor_devices.insert(id, device);
    }
    let subset: Vec<u128> = vec![4, 2, 1];
    assert_eq!(
        sm.model_update_dispatch_targets_for_subset(Some(&subset)),
        vec![1, 4]
    );
}

#[test]
fn canonical_model_update_target_uses_shared_device_representative() {
    let sm = make_state_manager("canonical", shared_modes());
    for id in scattered_ids() {
        sm.actor_handles.insert(id, 1);
        sm.actor_devices.insert(id, CPU);
    }
    let expected_target = scattered_ids()
        .into_iter()
        .min_by_key(|id| Uuid::from_u128(*id).to_string())
        .unwrap();
    for id in scattered_ids() {
        assert_eq!(sm.canonical_model_update_target(id), expected_target);
    }
    assert_eq!(
        sm.canonical_model_update_target(expected_target),
        expected_target
    );
}

#[test]
fn canonical_model_update_target_preserves_independent_actor_ids() {
    let sm = make_state_manager("preserve", disabled_modes());
    for id in scattered_ids() {
        sm.actor_handles.insert(id, 1);
    }
    for id in scattered_ids() {
        assert_eq!(sm.canonical_model_update_target(id), id);
    }
}

#[test]
fn shared_mode_second_actor_reuses_same_arc() {
    let mut sm = make_state_manager("reuse", shared_modes());
    let (h1, needs1) = sm
        .get_or_init_model_handle(CPU, nothing_loaded(), 500)
        .ok()
        .unwrap();
    let (h2, needs2) = sm
        .get_or_init_model_handle(CPU, nothing_loaded(), 501)
        .ok()
        .unwrap();
    assert_eq!(h1, h2);
    assert!(needs1);
    assert!(!needs2);
    let (h3, needs3) = sm
        .get_or_init_model_handle(CUDA, nothing_loaded(), 502)
        .ok()
        .unwrap();
    assert_eq!(h3, 502);
    assert!(needs3);
    assert_eq!(sm.shared_model(CPU), Some(500));
}

#[test]
fn independent_mode_each_actor_gets_fresh_arc() {
    let mut sm = make_state_manager("fresh", disabled_modes());
    let (h1, _) = sm
        .get_or_init_model_handle(CPU, nothing_loaded(), 500)
        .ok()
        .unwrap();
    let (h2, _) = sm
        .get_or_init_model_handle(CPU, nothing_loaded(), 501)
        .ok()
        .unwrap();
    assert_ne!(h1, h2);
}

#[test]
fn no_model_and_empty_path_sets_needs_handshake() {
    let mut sm = make_state_manager("handshake", disabled_modes());
    let source = model_source(false, false, &FilePath::of(""));
    assert_eq!(source, ModelSource::Nowhere);
    let (_, needs_handshake) = sm
        .get_or_init_model_handle(CPU, ModelLoad { source, failed: false }, 500)
        .ok()
        .unwrap();
    assert!(needs_handshake);
}

#[test]
fn models_are_looked_for_in_order() {
    assert_eq!(model_source(true, true, &FilePath::of("m.pt")), ModelSource::Parameter);
    assert_eq!(model_source(false, true, &FilePath::of("m.pt")), ModelSource::Cache);
    assert_eq!(model_source(false, false, &FilePath::of("m.pt")), ModelSource::LocalPath);
}

#[test]
fn a_model_that_cannot_be_loaded_is_reported() {
    let mut sm = make_state_manager("unloadable", disabled_modes());
    let load = ModelLoad { source: ModelSource::Cache, failed: true };
    match sm.get_or_init_model_handle(CPU, load, 500) {
        Err(StateManagerError::FailedToCreateReloadableModelError(m)) => assert_eq!(
            m,
            "[StateManager] Failed to create reloadable model from cache"
        ),
        _ => panic!("expected a load error"),
    }
    let added = sm.new_actor(5, "r".to_string(), CPU, load, actor_tokens(0));
    assert!(added.outcome.is_err());
    assert!(sm.actor_inboxes.get(&5).is_some());
    assert!(sm.actor_handles.get(&5).is_none());
}

#[test]
fn actors_are_added_replaced_and_restarted() {
    let mut sm = make_state_manager("add", disabled_modes());
    reserve_namespace(&sm.client_namespace);
    let id: u128 = 0xabc;
    add_id(&sm.client_namespace, ACTOR_CONTEXT, Uuid::from_u128(id)).unwrap();
    let added = sm.new_actor(id, "r1".to_string(), CPU, nothing_loaded(), actor_tokens(1));
    assert!(matches!(added.outcome, Ok(true)));
    assert_eq!(added.replaced_handle, None);
    assert_eq!(sm.actor_count, 1);
    assert_eq!(sm.router_of(id).unwrap(), "r1");

    // The one with the same identifier goes first, and with it its registration.
    let again = sm.new_actor(id, "r2".to_string(), CPU, nothing_loaded(), actor_tokens(2));
    assert!(matches!(again.outcome, Ok(true)));
    assert_eq!(again.replaced_handle, Some(301));
    assert_eq!(sm.actor_count, 1);
    assert_eq!(sm.router_of(id).unwrap(), "r2");

    // It is no longer registered, so it cannot be removed properly, and nothing is added.
    let restarted = sm.restart_actor(id, "r3".to_string(), CPU, nothing_loaded(), actor_tokens(3));
    assert!(matches!(restarted.outcome, Err(StateManagerError::UuidPoolError(_))));
    assert_eq!(restarted.replaced_handle, Some(302));
    assert!(sm.actor_handles.is_empty());

    sm.clear_runtime_components();
    assert!(sm.actor_inboxes.is_empty());
}

#[test]
fn all_actors_with_inboxes_are_shut_down() {
    let sm = make_state_manager("stop", disabled_modes());
    sm.actor_inboxes.insert(1, 11);
    sm.actor_inboxes.insert(2, 12);
    sm.actor_handles.insert(2, 22);
    let mut stops = sm.shutdown_all_actors();
    stops.sort_by_key(|s| s.actor_id);
    assert_eq!(stops.len(), 2);
    assert_eq!((stops[0].inbox, stops[0].handle), (11, None));
    assert_eq!((stops[1].inbox, stops[1].handle), (12, Some(22)));
    let message = shutdown_message(2);
    assert_eq!(message.actor_id, 2);
    assert_eq!(message.protocol, RoutingProtocol::Shutdown);
    assert!(matches!(message.payload, RoutedPayload::Shutdown));
    assert!(is_listed(&vec![1, 2], 2));
    assert!(!is_listed(&vec![1, 2], 3));
    match shutdown_timeout(3) {
        StateManagerError::ShutdownAllActorsError(m) => assert_eq!(
            m,
            "[StateManager] Shutdown all actors timeout: 00000000-0000-0000-0000-000000000003"
        ),
        _ => panic!("expected a timeout"),
    }
}
