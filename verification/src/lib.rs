//! Verified core of the RelayRL multi-actor client runtime.

use vstd::prelude::*;

pub mod actor;
pub mod arguments;
pub mod configuration;
pub mod coordinator;
pub mod engine;
pub mod entries;
pub mod errors;
pub mod hyperparameters;
pub mod ids;
pub mod interface;
pub mod lifecycle;
pub mod listeners;
pub mod maps;
pub mod messages;
pub mod modes;
pub mod nats;
pub mod nats_payloads;
pub mod nats_policies;
pub mod paths;
pub mod policies;
pub mod numbers;
pub mod receiver;
pub mod registry;
pub mod state;
pub mod text;
pub mod transport_config;
pub mod zmq;
pub mod zmq_policies;

verus! {

} // verus!
