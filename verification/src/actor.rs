//! What an actor does with the messages it receives.
//!
//! The model, the trajectory, the channels and the clock live outside this module: it is told what
//! happened and decides what follows. Trajectories, actions and reply channels are known by tokens.

use crate::errors::ActorError;
use crate::messages::{RoutedMessage, RoutedPayload, RoutingProtocol};
use crate::modes::ActorTrainingDataMode;
use crate::numbers::Real;
use crate::registry::{pool_error_chars, refuses_removal, remove_entry, IdEntry};
use crate::state::ACTOR_CONTEXT;
use active_uuid_registry::UuidPoolError;
use vstd::prelude::*;

verus! {

/// What a message asks an actor to do.
pub enum ActorTask {
    /// Ask the training server for a first model.
    Handshake,
    /// End the episode with this reward.
    FlagLastAction { reward: Real },
    /// Tell the version of the model.
    TellModelVersion { reply_to: u64 },
    /// Take over a model.
    RefreshModel { model_bytes: Vec<u8>, version: i64 },
    /// Record an action.
    RecordAction { action: u64 },
    /// Shut down; no further message is received.
    Shutdown,
    Nothing,
}

/// What a message asks for. A message whose contents do not fit what it is about asks for nothing,
/// except that a shutdown needs no contents.
pub open spec fn task_of(msg: RoutedMessage) -> ActorTask {
    match (msg.protocol, msg.payload) {
        (RoutingProtocol::ModelHandshake, RoutedPayload::ModelHandshake) => ActorTask::Handshake,
        (
            RoutingProtocol::FlagLastInference,
            RoutedPayload::FlagLastInference { reward, .. },
        ) => ActorTask::FlagLastAction { reward },
        (
            RoutingProtocol::ModelVersion,
            RoutedPayload::ModelVersion { reply_to },
        ) => ActorTask::TellModelVersion { reply_to },
        (
            RoutingProtocol::ModelUpdate,
            RoutedPayload::ModelUpdate { model_bytes, version },
        ) => ActorTask::RefreshModel { model_bytes, version },
        (
            RoutingProtocol::RecordAction,
            RoutedPayload::RecordAction(action),
        ) => ActorTask::RecordAction { action },
        (RoutingProtocol::Shutdown, _) => ActorTask::Shutdown,
        _ => ActorTask::Nothing,
    }
}

/// What becomes of a model that was received.
#[derive(Clone, Copy, Debug, PartialEq, Eq, Structural)]
pub enum ModelInstallation {
    /// It becomes the actor's model.
    Fresh,
    /// It takes the place of the model that is there, with this version.
    Reload { version: i64 },
}

/// How far asking for a first model has come.
pub enum HandshakeEvent {
    /// It was asked to be done, and whether there is a model already.
    Begun { model_present: bool },
    /// The training server answered, and whether with a model. By then there may be a model, of
    /// this version. A model that came with the answer was written to its file, if it could be.
    Answered { model_received: bool, existing_version: Option<i64> },
    Installed(Result<(), String>),
}

/// What is done next to get a first model.
pub enum HandshakeAction {
    /// There is nothing to do.
    NotNeeded,
    /// The training server is asked under this entry.
    Ask(IdEntry),
    Install(ModelInstallation),
    /// Done, and whether there is a model now.
    End(Result<bool, ActorError>),
}

/// The action that closes an episode.
pub struct LastAction {
    pub reward: Real,
    pub done: bool,
    pub actor_id: u128,
}

/// What the end of an episode does to the actor's trajectory.
pub struct EpisodeEnd {
    /// What is added to the trajectory before it is sent.
    pub last_action: LastAction,
    /// The length of the empty trajectory that takes its place.
    pub next_length: usize,
}

/// How far taking over a model has come.
pub enum RefreshEvent {
    /// The bytes were read, and whether they are a model.
    Read { is_model: bool },
    Validated(Result<(), String>),
    /// The model was written to its file, and whether there is a model already.
    Saved { outcome: Result<(), String>, model_present: bool },
    Installed(Result<(), String>),
}

/// What is done next to take over a model.
pub enum RefreshAction {
    Validate,
    Save,
    Install(ModelInstallation),
    /// Done, and whether the model was taken over.
    End(Result<bool, ActorError>),
}

/// What follows a step of taking over a model of a version.
pub open spec fn refreshing(version: i64, event: RefreshEvent, r: RefreshAction) -> bool {
    match event {
        RefreshEvent::Read { is_model } => if is_model {
            r is Validate
        } else {
            r == RefreshAction::End(Ok(false))
        },
        RefreshEvent::Validated(Ok(_)) => r is Save,
        RefreshEvent::Saved { outcome: Ok(_), model_present } => r == RefreshAction::Install(
            if model_present {
                ModelInstallation::Reload { version }
            } else {
                ModelInstallation::Fresh
            },
        ),
        RefreshEvent::Installed(Ok(_)) => r == RefreshAction::End(Ok(true)),
        RefreshEvent::Validated(Err(why)) => r == RefreshAction::End(
            Err(ActorError::ModelError(why)),
        ),
        RefreshEvent::Saved { outcome: Err(why), .. } => r == RefreshAction::End(
            Err(ActorError::ModelError(why)),
        ),
        RefreshEvent::Installed(Err(why)) => r == RefreshAction::End(
            Err(ActorError::ModelError(why)),
        ),
    }
}

/// The message that delivers an actor's trajectory.
pub open spec fn delivery(actor_id: u128, timestamp: (u128, u128), trajectory: u64) -> RoutedMessage {
    RoutedMessage {
        actor_id,
        protocol: RoutingProtocol::SendTrajectory,
        payload: RoutedPayload::SendTrajectory { timestamp, trajectory },
    }
}

/// An actor of a client.
pub struct Actor {
    pub client_namespace: String,
    pub actor_id: u128,
    /// Whether there is a training server to ask for models.
    pub has_training_dispatcher: bool,
    /// Whether the addresses of servers are known.
    pub has_transport_addresses: bool,
}

impl Actor {
    pub fn new(
        client_namespace: String,
        actor_id: u128,
        has_training_dispatcher: bool,
        has_transport_addresses: bool,
    ) -> (r: Self)
        ensures
            r == (Actor {
                client_namespace,
                actor_id,
                has_training_dispatcher,
                has_transport_addresses,
            }),
    {
        Actor { client_namespace, actor_id, has_training_dispatcher, has_transport_addresses }
    }

    /// The length of the trajectory that an actor starts with. Where no training data is wanted it
    /// is nought; later trajectories have the greatest length in any case.
    pub fn initial_trajectory_length(mode: &ActorTrainingDataMode, max_traj_length: usize) -> (r:
        usize)
        ensures
            r == (if mode is Disabled {
                0
            } else {
                max_traj_length
            }),
    {
        match mode {
            ActorTrainingDataMode::Disabled => 0,
            _ => max_traj_length,
        }
    }

    /// Decides what a message asks for.
    pub fn receive(&self, msg: RoutedMessage) -> (r: ActorTask)
        ensures
            r == task_of(msg),
    {
        match (msg.protocol, msg.payload) {
            (RoutingProtocol::ModelHandshake, RoutedPayload::ModelHandshake) => ActorTask::Handshake,
            (
                RoutingProtocol::FlagLastInference,
                RoutedPayload::FlagLastInference { reward, .. },
            ) => ActorTask::FlagLastAction { reward },
            (
                RoutingProtocol::ModelVersion,
                RoutedPayload::ModelVersion { reply_to },
            ) => ActorTask::TellModelVersion { reply_to },
            (
                RoutingProtocol::ModelUpdate,
                RoutedPayload::ModelUpdate { model_bytes, version },
            ) => ActorTask::RefreshModel { model_bytes, version },
            (
                RoutingProtocol::RecordAction,
                RoutedPayload::RecordAction(action),
            ) => ActorTask::RecordAction { action },
            (RoutingProtocol::Shutdown, _) => ActorTask::Shutdown,
            _ => ActorTask::Nothing,
        }
    }

    /// What follows a step of asking for a first model. A model that has come meanwhile is replaced
    /// by one of the next version.
    pub open spec fn handshaking(self, event: HandshakeEvent, r: HandshakeAction) -> bool {
        match event {
            HandshakeEvent::Begun { model_present } => if model_present {
                r is NotNeeded
            } else if !self.has_training_dispatcher {
                r == HandshakeAction::End(Ok(false))
            } else if !self.has_transport_addresses {
                r matches HandshakeAction::End(Err(ActorError::SystemError(m))) && m@
                    == "Server addresses not available"@
            } else {
                &&& r matches HandshakeAction::Ask(entry)
                &&& self.is_own(entry)
            },
            HandshakeEvent::Answered { model_received, existing_version } => if !model_received {
                r == HandshakeAction::End(Ok(false))
            } else {
                r == HandshakeAction::Install(
                    match existing_version {
                        Some(v) => ModelInstallation::Reload { version: (v + 1) as i64 },
                        None => ModelInstallation::Fresh,
                    },
                )
            },
            HandshakeEvent::Installed(Ok(_)) => r == HandshakeAction::End(Ok(true)),
            HandshakeEvent::Installed(Err(why)) => r == HandshakeAction::End(
                Err(ActorError::ModelError(why)),
            ),
        }
    }

    /// Decides what follows a step of asking for a first model.
    pub fn initial_model_handshake(&self, event: HandshakeEvent) -> (r: HandshakeAction)
        requires
            event matches HandshakeEvent::Answered {
                model_received: true,
                existing_version: Some(v),
            } ==> v < i64::MAX,
        ensures
            self.handshaking(event, r),
    {
        match event {
            HandshakeEvent::Begun { model_present } => {
                if model_present {
                    return HandshakeAction::NotNeeded;
                }
                if !self.has_training_dispatcher {
                    return HandshakeAction::End(Ok(false));
                }
                if !self.has_transport_addresses {
                    return HandshakeAction::End(
                        Err(ActorError::SystemError("Server addresses not available".to_owned())),
                    );
                }
                HandshakeAction::Ask(self.own_entry())
            },
            HandshakeEvent::Answered { model_received, existing_version } => {
                if !model_received {
                    return HandshakeAction::End(Ok(false));
                }
                match existing_version {
                    Some(v) => HandshakeAction::Install(
                        ModelInstallation::Reload { version: v + 1 },
                    ),
                    None => HandshakeAction::Install(ModelInstallation::Fresh),
                }
            },
            HandshakeEvent::Installed(Ok(_)) => HandshakeAction::End(Ok(true)),
            HandshakeEvent::Installed(Err(why)) => HandshakeAction::End(
                Err(ActorError::ModelError(why)),
            ),
        }
    }

    /// The version of the model that is told: that of the model, or one that says that there is
    /// none.
    pub fn get_model_version(&self, model_version: Option<i64>) -> (r: i64)
        ensures
            r == (match model_version {
                Some(v) => v as int,
                None => -1int,
            }),
    {
        match model_version {
            Some(v) => v,
            None => -1,
        }
    }

    /// Reports why a reply did not arrive.
    pub fn reply_sent(&self, outcome: Result<(), String>) -> (r: Result<(), ActorError>)
        ensures
            match outcome {
                Ok(_) => r is Ok,
                Err(why) => r == Err::<(), ActorError>(ActorError::MessageHandlingError(why)),
            },
    {
        match outcome {
            Ok(_) => Ok(()),
            Err(why) => Err(ActorError::MessageHandlingError(why)),
        }
    }

    /// Decides what follows a step of taking over a model of a version.
    pub fn refresh_model(&self, version: i64, event: RefreshEvent) -> (r: RefreshAction)
        ensures
            refreshing(version, event, r),
    {
        match event {
            RefreshEvent::Read { is_model } => {
                if is_model {
                    RefreshAction::Validate
                } else {
                    RefreshAction::End(Ok(false))
                }
            },
            RefreshEvent::Validated(Ok(_)) => RefreshAction::Save,
            RefreshEvent::Validated(Err(why)) => RefreshAction::End(
                Err(ActorError::ModelError(why)),
            ),
            RefreshEvent::Saved { outcome: Ok(_), model_present } => {
                if model_present {
                    RefreshAction::Install(ModelInstallation::Reload { version })
                } else {
                    RefreshAction::Install(ModelInstallation::Fresh)
                }
            },
            RefreshEvent::Saved { outcome: Err(why), .. } => RefreshAction::End(
                Err(ActorError::ModelError(why)),
            ),
            RefreshEvent::Installed(Ok(_)) => RefreshAction::End(Ok(true)),
            RefreshEvent::Installed(Err(why)) => RefreshAction::End(
                Err(ActorError::ModelError(why)),
            ),
        }
    }

    /// What the end of an episode with a reward does to the actor's trajectory.
    pub fn end_episode(&self, reward: Real, max_traj_length: usize) -> (r: EpisodeEnd)
        ensures
            r == (EpisodeEnd {
                last_action: LastAction { reward, done: true, actor_id: self.actor_id },
                next_length: max_traj_length,
            }),
    {
        EpisodeEnd {
            last_action: LastAction { reward, done: true, actor_id: self.actor_id },
            next_length: max_traj_length,
        }
    }

    /// The message that delivers the trajectory of an episode, which has been closed by its last
    /// action and replaced by an empty one, at a time in milliseconds and in nanoseconds.
    pub fn perform_flag_last_action(&self, trajectory: u64, clock: Result<(u128, u128), String>) -> (r:
        Result<RoutedMessage, ActorError>)
        ensures
            match clock {
                Ok(timestamp) => r == Ok::<RoutedMessage, ActorError>(
                    delivery(self.actor_id, timestamp, trajectory),
                ),
                Err(why) => r matches Err(ActorError::SystemError(m)) && m@ == "Clock skew: "@ + why@,
            },
    {
        match clock {
            Ok(timestamp) => Ok(
                RoutedMessage {
                    actor_id: self.actor_id,
                    protocol: RoutingProtocol::SendTrajectory,
                    payload: RoutedPayload::SendTrajectory { timestamp, trajectory },
                },
            ),
            Err(why) => {
                let mut m = "Clock skew: ".to_owned();
                m.append(why.as_str());
                Err(ActorError::SystemError(m))
            },
        }
    }

    /// Reports why the trajectory of an episode was not delivered.
    pub fn trajectory_sent(&self, outcome: Result<(), String>) -> (r: Result<(), ActorError>)
        ensures
            match outcome {
                Ok(_) => r is Ok,
                Err(why) => r == Err::<(), ActorError>(ActorError::TrajectorySendError(why)),
            },
    {
        match outcome {
            Ok(_) => Ok(()),
            Err(why) => Err(ActorError::TrajectorySendError(why)),
        }
    }

    /// What is delivered before the actor leaves: its trajectory, if anything is recorded in it.
    /// Whether the delivery arrives does not matter.
    pub fn handle_shutdown(
        &self,
        recorded: Option<u64>,
        clock: Result<(u128, u128), String>,
    ) -> (r: Result<Option<RoutedMessage>, ActorError>)
        ensures
            match (recorded, clock) {
                (None, _) => r == Ok::<Option<RoutedMessage>, ActorError>(None),
                (Some(trajectory), Ok(timestamp)) => r == Ok::<Option<RoutedMessage>, ActorError>(
                    Some(delivery(self.actor_id, timestamp, trajectory)),
                ),
                (Some(_), Err(why)) => r matches Err(ActorError::SystemError(m)) && m@
                    == "Clock skew: "@ + why@,
            },
    {
        match recorded {
            None => Ok(None),
            Some(trajectory) => match self.perform_flag_last_action(trajectory, clock) {
                Ok(message) => Ok(Some(message)),
                Err(e) => Err(e),
            },
        }
    }

    /// What taking the actor's identifier from the registry amounts to.
    pub fn left(outcome: Result<(), UuidPoolError>) -> (r: Result<(), ActorError>)
        ensures
            match outcome {
                Ok(_) => r is Ok,
                Err(e) => r == Err::<(), ActorError>(ActorError::UuidPoolError(e)),
            },
    {
        match outcome {
            Ok(_) => Ok(()),
            Err(e) => Err(ActorError::UuidPoolError(e)),
        }
    }

    /// Whether an entry is the one that the actor is registered with.
    pub open spec fn is_own(self, entry: IdEntry) -> bool {
        &&& entry.namespace@ == self.client_namespace@
        &&& entry.context@ == ACTOR_CONTEXT@
        &&& entry.id == self.actor_id
    }

    /// The entry that the actor is registered with.
    pub fn own_entry(&self) -> (r: IdEntry)
        ensures
            self.is_own(r),
    {
        IdEntry {
            namespace: self.client_namespace.clone(),
            context: ACTOR_CONTEXT.to_owned(),
            id: self.actor_id,
        }
    }

    /// Asks the registry to remove the actor's own entry. Whether it was there depends on the
    /// registry. A refusal says that it was not, or that the client's namespace has an owner.
    pub fn leave(&self) -> (r: Result<(), ActorError>)
        ensures
            r matches Err(e) ==> (e matches ActorError::UuidPoolError(why) && refuses_removal(
                self.client_namespace@,
                pool_error_chars(why),
            )),
    {
        let entry = self.own_entry();
        Self::left(remove_entry(&entry))
    }
}

/// What a message asks for depends on what it is about and what it carries, which have to agree: an
/// actor never acts on contents of another sort. A shutdown alone needs no contents.
pub proof fn law_messages_ask_for_what_they_are_about(msg: RoutedMessage)
    ensures
        task_of(msg) is Shutdown <==> msg.protocol == RoutingProtocol::Shutdown,
        task_of(msg) is Handshake <==> msg.protocol == RoutingProtocol::ModelHandshake
            && msg.payload is ModelHandshake,
        task_of(msg) is FlagLastAction <==> msg.protocol == RoutingProtocol::FlagLastInference
            && msg.payload is FlagLastInference,
        task_of(msg) is TellModelVersion <==> msg.protocol == RoutingProtocol::ModelVersion
            && msg.payload is ModelVersion,
        task_of(msg) is RefreshModel <==> msg.protocol == RoutingProtocol::ModelUpdate
            && msg.payload is ModelUpdate,
        task_of(msg) is RecordAction <==> msg.protocol == RoutingProtocol::RecordAction
            && msg.payload is RecordAction,
        task_of(msg) matches ActorTask::FlagLastAction { reward } ==> (msg.payload matches
            RoutedPayload::FlagLastInference { reward: given, .. } && reward == given),
        task_of(msg) matches ActorTask::TellModelVersion { reply_to } ==> (msg.payload matches
            RoutedPayload::ModelVersion { reply_to: asker } && reply_to == asker),
        task_of(msg) matches ActorTask::RefreshModel { model_bytes, version } ==> (msg.payload
            matches RoutedPayload::ModelUpdate { model_bytes: bytes, version: v } && model_bytes
            == bytes && version == v),
        task_of(msg) matches ActorTask::RecordAction { action } ==> (msg.payload matches
            RoutedPayload::RecordAction(given) && action == given),
{
}

/// A training server is asked for a first model exactly where there is none yet, a server to ask and
/// addresses to reach it; it is asked under the actor's own entry.
pub proof fn law_first_models_are_asked_for_when_missing(
    actor: Actor,
    model_present: bool,
    r: HandshakeAction,
)
    requires
        actor.handshaking(HandshakeEvent::Begun { model_present }, r),
    ensures
        r is Ask <==> !model_present && actor.has_training_dispatcher
            && actor.has_transport_addresses,
        r is NotNeeded <==> model_present,
        r == HandshakeAction::End(Ok(false)) <==> !model_present && !actor.has_training_dispatcher,
        r is End && r->End_0 is Err <==> !model_present && actor.has_training_dispatcher
            && !actor.has_transport_addresses,
        r matches HandshakeAction::Ask(entry) ==> entry.namespace@ == actor.client_namespace@
            && entry.context@ == "actor"@ && entry.id == actor.actor_id,
        r is End && r->End_0 is Err ==> (r->End_0->Err_0 matches ActorError::SystemError(m) && m@
            == "Server addresses not available"@),
{
}

/// A model that was received is installed, in place of one that has come meanwhile and then with the
/// version behind it. The handshake has brought a model exactly if one was received and installed.
pub proof fn law_received_models_are_installed(actor: Actor, event: HandshakeEvent, r: HandshakeAction)
    requires
        actor.handshaking(event, r),
        event matches HandshakeEvent::Answered { existing_version: Some(v), .. } ==> v < i64::MAX,
    ensures
        event matches HandshakeEvent::Answered { model_received, existing_version } ==> {
            &&& model_received <==> r is Install
            &&& !model_received ==> r == HandshakeAction::End(Ok(false))
            &&& model_received && existing_version is None ==> r == HandshakeAction::Install(
                ModelInstallation::Fresh,
            )
            &&& model_received && existing_version is Some ==> (r matches HandshakeAction::Install(
                ModelInstallation::Reload { version },
            ) && version == existing_version->0 + 1)
        },
        r == HandshakeAction::End(Ok(true)) <==> (event matches HandshakeEvent::Installed(outcome)
            && outcome is Ok),
        event matches HandshakeEvent::Installed(Err(why)) ==> r == HandshakeAction::End(
            Err(ActorError::ModelError(why)),
        ),
{
}

/// Bytes become the actor's model only step by step: they are read, validated, saved and installed,
/// in this order, and the model was taken over only after the last. A step that fails ends it, with
/// the reason, except that bytes that are no model are passed over. The version is the one told.
pub proof fn law_models_are_validated_before_they_are_installed(
    version: i64,
    event: RefreshEvent,
    r: RefreshAction,
)
    requires
        refreshing(version, event, r),
    ensures
        r is Validate <==> event == (RefreshEvent::Read { is_model: true }),
        r is Save ==> event is Validated,
        r is Install ==> event is Saved,
        r == RefreshAction::End(Ok(true)) <==> event matches RefreshEvent::Installed(Ok(_)),
        r == RefreshAction::End(Ok(false)) <==> event == (RefreshEvent::Read { is_model: false }),
        event matches RefreshEvent::Validated(outcome) ==> (outcome is Ok <==> r is Save),
        event matches RefreshEvent::Saved { outcome, .. } ==> (outcome is Ok <==> r is Install),
        event matches RefreshEvent::Validated(Err(why)) ==> r == RefreshAction::End(
            Err(ActorError::ModelError(why)),
        ),
        event matches RefreshEvent::Saved { outcome: Err(why), .. } ==> r == RefreshAction::End(
            Err(ActorError::ModelError(why)),
        ),
        event matches RefreshEvent::Installed(Err(why)) ==> r == RefreshAction::End(
            Err(ActorError::ModelError(why)),
        ),
        event matches RefreshEvent::Saved { model_present, .. } ==> (r matches
            RefreshAction::Install(installation) ==> (model_present <==> installation
            == (ModelInstallation::Reload { version })) && (!model_present <==> installation
            == ModelInstallation::Fresh)),
{
}

/// A trajectory is delivered as its actor's, as it is, with the time at which it ended.
pub proof fn law_trajectories_are_delivered_as_they_are(
    actor_id: u128,
    timestamp: (u128, u128),
    trajectory: u64,
)
    ensures
        delivery(actor_id, timestamp, trajectory).actor_id == actor_id,
        delivery(actor_id, timestamp, trajectory).protocol == RoutingProtocol::SendTrajectory,
        delivery(actor_id, timestamp, trajectory).payload matches RoutedPayload::SendTrajectory {
            timestamp: at,
            trajectory: sent,
        } && at == timestamp && sent == trajectory,
        task_of(delivery(actor_id, timestamp, trajectory)) is Nothing,
{
}

} // verus!
