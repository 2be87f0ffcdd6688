//! The reception of models from a training server.
//!
//! The listener and the channels live outside this module: it is told what happened and decides
//! what follows.

use crate::errors::TransportReceiverError;
use crate::messages::{RoutedMessage, RoutedPayload, RoutingProtocol};
use crate::policies::SECOND;
use crate::registry::{context_entries, pool_error_chars, unknown_context, IdEntry};
use crate::state::{canonical, lists_wanted, StateManager};
use active_uuid_registry::UuidPoolError;
use std::collections::HashMap;
use vstd::prelude::*;

verus! {

broadcast use vstd::std_specs::hash::group_hash_axioms;

/// The registry context of receivers.
pub const RECEIVER_CONTEXT: &'static str = "receiver";

/// The version of the model that a message brings, if it brings one.
pub open spec fn update_version(msg: RoutedMessage) -> Option<i64> {
    match (msg.protocol, msg.payload) {
        (RoutingProtocol::ModelUpdate, RoutedPayload::ModelUpdate { version, .. }) => Some(version),
        _ => None,
    }
}

/// Whether a version is the one that was handed on last to a target.
pub open spec fn is_repeated(versions: Map<u128, i64>, target: u128, version: i64) -> bool {
    versions.contains_key(target) && versions[target] == version
}

/// What handing a message on leads to, once it is known which actor stands for the one it is
/// meant for.
pub open spec fn prepared(
    msg: RoutedMessage,
    target: u128,
    before: Map<u128, i64>,
    after: Map<u128, i64>,
    r: Option<RoutedMessage>,
) -> bool {
    match update_version(msg) {
        None => r == Some(msg) && after == before,
        Some(version) => if is_repeated(before, target, version) {
            r is None && after == before
        } else {
            &&& r == Some(RoutedMessage { actor_id: target, ..msg })
            &&& after == before.insert(target, version)
        },
    }
}

/// Directs a model to the actor that stands for the one it is meant for. A version that this actor
/// was sent last is dropped. Other messages pass.
pub fn prepare_transport_model_update_for_dispatch(
    shared_state: &StateManager,
    msg: RoutedMessage,
    last_forwarded_model_versions: &mut HashMap<u128, i64>,
) -> (r: Option<RoutedMessage>)
    ensures
        exists|sorted: Seq<u128>|
            #![trigger lists_wanted(shared_state.handles(), None, sorted)]
            lists_wanted(shared_state.handles(), None, sorted) && prepared(
                msg,
                canonical(
                    shared_state.shares(),
                    shared_state.devices(),
                    msg.actor_id,
                    sorted,
                ),
                old(last_forwarded_model_versions)@,
                final(last_forwarded_model_versions)@,
                r,
            ),
{
    let canonical_actor_id: u128 = shared_state.canonical_model_update_target(msg.actor_id);
    let model_version: i64 = match (msg.protocol, &msg.payload) {
        (RoutingProtocol::ModelUpdate, RoutedPayload::ModelUpdate { version, .. }) => *version,
        _ => {
            return Some(msg);
        },
    };
    if let Some(last) = last_forwarded_model_versions.get(&canonical_actor_id) {
        if *last == model_version {
            return None;
        }
    }
    last_forwarded_model_versions.insert(canonical_actor_id, model_version);
    Some(RoutedMessage { actor_id: canonical_actor_id, protocol: msg.protocol, payload: msg.payload })
}

/// A version that comes for the same target twice in a row is handed on at most once.
pub proof fn law_repeated_version_is_dropped(
    first: RoutedMessage,
    second: RoutedMessage,
    target: u128,
    version: i64,
    v0: Map<u128, i64>,
    v1: Map<u128, i64>,
    v2: Map<u128, i64>,
    r1: Option<RoutedMessage>,
    r2: Option<RoutedMessage>,
)
    requires
        update_version(first) == Some(version),
        update_version(second) == Some(version),
        prepared(first, target, v0, v1, r1),
        prepared(second, target, v1, v2, r2),
    ensures
        r2 is None,
        v2 == v1,
{
}

/// What goes to one target does not hold back what goes to another.
pub proof fn law_targets_are_apart(
    msg: RoutedMessage,
    target: u128,
    before: Map<u128, i64>,
    after: Map<u128, i64>,
    r: Option<RoutedMessage>,
    other: u128,
    version: i64,
)
    requires
        prepared(msg, target, before, after, r),
        other != target,
    ensures
        is_repeated(after, other, version) == is_repeated(before, other, version),
{
}

/// The entry that a receiver listens under, from those that the registry holds: the first.
pub fn receiver_entry(entries: Result<Vec<IdEntry>, UuidPoolError>) -> (r: Result<
    IdEntry,
    TransportReceiverError,
>)
    ensures
        match entries {
            Err(e) => r == Err::<IdEntry, TransportReceiverError>(
                TransportReceiverError::UuidPoolError(e),
            ),
            Ok(found) => if found@.len() == 0 {
                r == Err::<IdEntry, TransportReceiverError>(TransportReceiverError::NoEntriesFound)
            } else {
                r == Ok::<IdEntry, TransportReceiverError>(found@[0])
            },
        },
{
    match entries {
        Err(e) => Err(TransportReceiverError::from(e)),
        Ok(found) => {
            let mut found = found;
            if found.len() == 0 {
                return Err(TransportReceiverError::NoEntriesFound);
            }
            Ok(found.remove(0))
        },
    }
}

/// What happens to a receiver.
pub enum ReceiverEvent {
    /// The runtime shuts down. This goes before everything else that has happened.
    Shutdown,
    Message(RoutedMessage),
    /// No more models will come.
    Closed,
}

/// What a receiver does next.
pub enum ReceiverAction {
    /// The listener is told to stop and aborted; the receiver ends.
    StopListenerAndEnd,
    /// The listener is aborted; the receiver ends.
    End,
    Forward(RoutedMessage),
    Skip,
}

/// Receives models from a training server, one per client runtime.
pub struct ClientTransportModelReceiver {
    pub client_namespace: String,
    pub active: bool,
    pub last_forwarded_model_versions: HashMap<u128, i64>,
}

impl ClientTransportModelReceiver {
    pub fn new(client_namespace: String) -> (r: Self)
        ensures
            r.client_namespace == client_namespace,
            !r.active,
            r.last_forwarded_model_versions@ == Map::<u128, i64>::empty(),
    {
        ClientTransportModelReceiver {
            client_namespace,
            active: false,
            last_forwarded_model_versions: HashMap::new(),
        }
    }

    /// Starts to receive, with nothing handed on yet, under the entry that the registry holds for
    /// receivers of this client. Which it is, and whether there is one, depends on the registry.
    pub fn start(&mut self) -> (r: Result<IdEntry, TransportReceiverError>)
        ensures
            final(self).active,
            final(self).client_namespace == old(self).client_namespace,
            final(self).last_forwarded_model_versions@ == Map::<u128, i64>::empty(),
            r matches Ok(entry) ==> entry.namespace@ == old(self).client_namespace@
                && entry.context@ == RECEIVER_CONTEXT@,
            r matches Err(e) ==> match e {
                TransportReceiverError::NoEntriesFound => true,
                TransportReceiverError::UuidPoolError(why) => pool_error_chars(why)
                    == unknown_context(old(self).client_namespace@, RECEIVER_CONTEXT@),
                _ => false,
            },
    {
        self.active = true;
        self.last_forwarded_model_versions = HashMap::new();
        receiver_entry(context_entries(self.client_namespace.as_str(), RECEIVER_CONTEXT))
    }

    /// How long the listener pauses before it listens again, from how listening ended. After a
    /// graceful end it does not.
    pub fn listener_pause(failed: bool) -> (r: Option<u64>)
        ensures
            r == (if failed {
                Some(SECOND)
            } else {
                None
            }),
    {
        if failed {
            Some(SECOND)
        } else {
            None
        }
    }

    /// Decides what an event leads to.
    pub fn step(&mut self, shared_state: &StateManager, event: ReceiverEvent) -> (r: ReceiverAction)
        ensures
            final(self).client_namespace == old(self).client_namespace,
            match event {
                ReceiverEvent::Shutdown => {
                    &&& r is StopListenerAndEnd
                    &&& !final(self).active
                    &&& final(self).last_forwarded_model_versions == old(
                        self,
                    ).last_forwarded_model_versions
                },
                ReceiverEvent::Closed => {
                    &&& r is End
                    &&& !final(self).active
                    &&& final(self).last_forwarded_model_versions == old(
                        self,
                    ).last_forwarded_model_versions
                },
                ReceiverEvent::Message(msg) => {
                    &&& final(self).active == old(self).active
                    &&& r is Forward || r is Skip
                    &&& exists|sorted: Seq<u128>|
                        #![trigger lists_wanted(shared_state.handles(), None, sorted)]
                        lists_wanted(shared_state.handles(), None, sorted) && prepared(
                            msg,
                            canonical(
                                shared_state.shares(),
                                shared_state.devices(),
                                msg.actor_id,
                                sorted,
                            ),
                            old(self).last_forwarded_model_versions@,
                            final(self).last_forwarded_model_versions@,
                            match r {
                                ReceiverAction::Forward(m) => Some(m),
                                _ => None,
                            },
                        )
                },
            },
    {
        match event {
            ReceiverEvent::Shutdown => {
                self.active = false;
                ReceiverAction::StopListenerAndEnd
            },
            ReceiverEvent::Closed => {
                self.active = false;
                ReceiverAction::End
            },
            ReceiverEvent::Message(msg) => {
                match prepare_transport_model_update_for_dispatch(
                    shared_state,
                    msg,
                    &mut self.last_forwarded_model_versions,
                ) {
                    Some(m) => ReceiverAction::Forward(m),
                    None => ReceiverAction::Skip,
                }
            },
        }
    }
}

/// A message that brings no model passes as it is. One that does is handed on as it is but to the
/// target, exactly if its version is not the one that was handed on last, and is then the last.
pub proof fn law_models_are_handed_on_to_the_target(
    msg: RoutedMessage,
    target: u128,
    before: Map<u128, i64>,
    after: Map<u128, i64>,
    r: Option<RoutedMessage>,
)
    requires
        prepared(msg, target, before, after, r),
    ensures
        ({
            let brings = msg.protocol == RoutingProtocol::ModelUpdate && msg.payload is ModelUpdate;
            let version = msg.payload->ModelUpdate_version;
            &&& !brings ==> r == Some(msg) && after == before
            &&& brings ==> {
                &&& r is None <==> before.contains_key(target) && before[target] == version
                &&& r is None ==> after == before
                &&& r matches Some(m) ==> m.actor_id == target && m.protocol == msg.protocol
                    && m.payload == msg.payload
                &&& after.contains_key(target) && after[target] == version
            }
        }),
        forall|other: u128|
            other != target ==> (#[trigger] after.contains_key(other) <==> before.contains_key(other))
                && (after.contains_key(other) ==> after[other] == before[other]),
{
}

/// A version is held back only while it is the last: once another was handed on to the target, it is
/// handed on again.
pub proof fn law_only_the_last_version_is_held_back(
    first: RoutedMessage,
    second: RoutedMessage,
    third: RoutedMessage,
    target: u128,
    v0: Map<u128, i64>,
    v1: Map<u128, i64>,
    v2: Map<u128, i64>,
    v3: Map<u128, i64>,
    r1: Option<RoutedMessage>,
    r2: Option<RoutedMessage>,
    r3: Option<RoutedMessage>,
)
    requires
        update_version(first) is Some,
        update_version(second) is Some,
        update_version(first) != update_version(second),
        update_version(third) == update_version(first),
        prepared(first, target, v0, v1, r1),
        prepared(second, target, v1, v2, r2),
        prepared(third, target, v2, v3, r3),
    ensures
        r2 is Some,
        r3 is Some,
{
}

} // verus!
