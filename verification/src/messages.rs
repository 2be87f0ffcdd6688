//! The messages that routers carry to actors.
//!
//! Observations, masks, reply channels, trajectories and actions live outside this module; here each is known by a
//! token.

use crate::numbers::Real;
use vstd::prelude::*;

verus! {

/// What a message is about.
#[derive(Clone, Copy, Debug, PartialEq, Eq, Structural)]
pub enum RoutingProtocol {
    ModelHandshake,
    RequestInference,
    FlagLastInference,
    ModelVersion,
    ModelUpdate,
    SendTrajectory,
    RecordAction,
    Shutdown,
}

/// What a message carries.
#[derive(Debug)]
pub enum RoutedPayload {
    ModelHandshake,
    RequestInference { observation: u64, mask: Option<u64>, reward: Real, reply_to: u64 },
    /// The end of an episode, and of which environment, if one is meant.
    FlagLastInference { reward: Real, env_id: Option<u128>, env_label: Option<String> },
    ModelVersion { reply_to: u64 },
    ModelUpdate { model_bytes: Vec<u8>, version: i64 },
    SendTrajectory { timestamp: (u128, u128), trajectory: u64 },
    RecordAction(u64),
    Shutdown,
}

/// A message to an actor.
#[derive(Debug)]
pub struct RoutedMessage {
    pub actor_id: u128,
    pub protocol: RoutingProtocol,
    pub payload: RoutedPayload,
}

impl RoutedMessage {
    /// Whether the message brings an actor this model in this version.
    pub open spec fn is_model_update(self, actor_id: u128, model: Seq<u8>, version: int) -> bool {
        &&& self.actor_id == actor_id
        &&& self.protocol == RoutingProtocol::ModelUpdate
        &&& self.payload matches RoutedPayload::ModelUpdate { model_bytes, version: v }
        &&& model_bytes@ == model
        &&& v == version
    }
}

/// A message that brings a model brings just that one, to just that actor, in just that version.
pub proof fn law_model_updates_say_what_they_bring(
    msg: RoutedMessage,
    actor_id: u128,
    model: Seq<u8>,
    version: int,
)
    ensures
        msg.is_model_update(actor_id, model, version) <==> msg.actor_id == actor_id && msg.protocol
            == RoutingProtocol::ModelUpdate && (msg.payload matches RoutedPayload::ModelUpdate {
            model_bytes,
            version: v,
        } && model_bytes@ == model && v == version),
{
}

} // verus!
