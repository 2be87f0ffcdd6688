//! Which model computes the actions of which policy.
//!
//! Models live outside this module; here each is known by a token. Where actors share a model,
//! several policies have the same token.

use crate::maps::{tokens, tokens_get, tokens_insert, tokens_new, tokens_remove};
use crate::state::bound;
use dashmap::DashMap;
use vstd::prelude::*;

verus! {

/// The models by policy.
pub struct InferenceEngine {
    pub registry: DashMap<u128, u64>,
}

/// What came of a step of computing an action.
pub enum InferenceEvent {
    /// A policy is to act.
    Asked { policy_id: u128 },
    /// The policy's model was looked at: it may not be loaded yet.
    Looked { loaded: bool },
    /// The model computed an action, or failed.
    Computed(Result<u64, String>),
}

/// What is done next to compute an action.
#[derive(Clone, Copy, Debug, PartialEq, Eq)]
pub enum InferenceAction {
    /// Look whether this model is loaded.
    Look { handle: u64 },
    /// Let the model compute.
    Compute,
    End(Option<u64>),
}

impl InferenceEngine {
    /// The models by policy.
    pub open spec fn models(self) -> Map<u128, u64> {
        tokens(self.registry)
    }

    pub fn new() -> (r: Self)
        ensures
            r.models() == Map::<u128, u64>::empty(),
    {
        InferenceEngine { registry: tokens_new() }
    }

    /// Registers the model of a policy.
    pub fn register(&mut self, policy_id: u128, handle: u64)
        ensures
            final(self).models() == old(self).models().insert(policy_id, handle),
    {
        tokens_insert(&mut self.registry, policy_id, handle);
    }

    /// Forgets the model of a policy.
    pub fn deregister(&mut self, policy_id: u128)
        ensures
            final(self).models() == old(self).models().remove(policy_id),
    {
        tokens_remove(&mut self.registry, policy_id);
    }

    /// What a step of computing an action leads to.
    pub open spec fn leads(self, event: InferenceEvent, r: InferenceAction) -> bool {
        match event {
            InferenceEvent::Asked { policy_id } => match bound(self.models(), policy_id) {
                Some(handle) => r == (InferenceAction::Look { handle }),
                None => r == InferenceAction::End(None),
            },
            InferenceEvent::Looked { loaded } => if loaded {
                r == InferenceAction::Compute
            } else {
                r == InferenceAction::End(None)
            },
            InferenceEvent::Computed(Ok(action)) => r == InferenceAction::End(Some(action)),
            InferenceEvent::Computed(Err(_)) => r == InferenceAction::End(None),
        }
    }

    /// Decides what a step of computing an action for a policy leads to. There is no action without
    /// a model that is registered, while the model is not loaded, and where it fails.
    pub fn forward(&self, event: InferenceEvent) -> (r: InferenceAction)
        ensures
            self.leads(event, r),
    {
        match event {
            InferenceEvent::Asked { policy_id } => match tokens_get(&self.registry, policy_id) {
                Some(handle) => InferenceAction::Look { handle },
                None => InferenceAction::End(None),
            },
            InferenceEvent::Looked { loaded } => if loaded {
                InferenceAction::Compute
            } else {
                InferenceAction::End(None)
            },
            InferenceEvent::Computed(Ok(action)) => InferenceAction::End(Some(action)),
            InferenceEvent::Computed(Err(_)) => InferenceAction::End(None),
        }
    }
}

/// The action that a policy gets: none without a model or while it is not loaded, else what the
/// model computes, if it does not fail.
pub open spec fn forwarded(
    models: Map<u128, u64>,
    policy_id: u128,
    loaded: bool,
    computed: Result<u64, String>,
) -> Option<u64> {
    if bound(models, policy_id) is None || !loaded {
        None
    } else {
        match computed {
            Ok(action) => Some(action),
            Err(_) => None,
        }
    }
}

/// Step by step a policy gets the action of the model that was last registered for it. Without one
/// no model is looked at, and one that is not loaded computes nothing.
pub proof fn law_steps_forward(
    engine: InferenceEngine,
    policy_id: u128,
    loaded: bool,
    computed: Result<u64, String>,
    first: InferenceAction,
    second: InferenceAction,
    third: InferenceAction,
)
    requires
        engine.leads(InferenceEvent::Asked { policy_id }, first),
        engine.leads(InferenceEvent::Looked { loaded }, second),
        engine.leads(InferenceEvent::Computed(computed), third),
    ensures
        ({
            let action = forwarded(engine.models(), policy_id, loaded, computed);
            match first {
                InferenceAction::End(r) => r == action && bound(engine.models(), policy_id) is None,
                InferenceAction::Compute => false,
                InferenceAction::Look { handle } => {
                    &&& bound(engine.models(), policy_id) == Some(handle)
                    &&& match second {
                        InferenceAction::End(r) => r == action && !loaded,
                        InferenceAction::Look { .. } => false,
                        InferenceAction::Compute => third == InferenceAction::End(action),
                    }
                },
            }
        }),
{
}

/// A model that was registered for a policy computes its actions until another is registered or it
/// is forgotten; other policies keep theirs.
pub proof fn law_registered_model_serves(
    models: Map<u128, u64>,
    policy_id: u128,
    handle: u64,
    other: u128,
)
    requires
        other != policy_id,
    ensures
        bound(models.insert(policy_id, handle), policy_id) == Some(handle),
        bound(models.insert(policy_id, handle), other) == bound(models, other),
        bound(models.remove(policy_id), policy_id) is None,
        bound(models.remove(policy_id), other) == bound(models, other),
{
}

/// A policy's action is the one that its model computed. Without a model there is none, and none
/// while the model is not loaded or when it fails.
pub proof fn law_actions_come_from_the_registered_model(
    engine: InferenceEngine,
    event: InferenceEvent,
    r: InferenceAction,
)
    requires
        engine.leads(event, r),
    ensures
        event matches InferenceEvent::Asked { policy_id } ==> {
            &&& engine.models().contains_key(policy_id) ==> r == (InferenceAction::Look {
                handle: engine.models()[policy_id],
            })
            &&& !engine.models().contains_key(policy_id) ==> r == InferenceAction::End(None)
        },
        r is Compute <==> event == (InferenceEvent::Looked { loaded: true }),
        event matches InferenceEvent::Looked { loaded } ==> (!loaded ==> r == InferenceAction::End(
            None,
        )),
        r matches InferenceAction::End(Some(action)) ==> (event matches InferenceEvent::Computed(
            computed,
        ) && computed == Ok::<u64, String>(action)),
        event matches InferenceEvent::Computed(computed) ==> r is End && (r->End_0 is Some
            <==> computed is Ok),
{
}

} // verus!
