//! Where the servers are reached, how long a trajectory may grow and where the local model lies.

use vstd::prelude::*;

verus! {

/// A host and a port, both as text.
#[derive(Debug, PartialEq)]
pub struct NetworkParams {
    pub host: String,
    pub port: String,
}

impl NetworkParams {
    /// Whether the address consists of this host and this port.
    pub open spec fn reads(self, host: Seq<char>, port: Seq<char>) -> bool {
        self.host@ == host && self.port@ == port
    }

    /// Makes an address of a host and a port.
    pub fn of(host: &str, port: &str) -> (r: Self)
        ensures
            r.reads(host@, port@),
    {
        NetworkParams { host: host.to_owned(), port: port.to_owned() }
    }
}

impl Clone for NetworkParams {
    fn clone(&self) -> (r: Self)
        ensures
            r == *self,
    {
        NetworkParams { host: self.host.clone(), port: self.port.clone() }
    }
}

/// The addresses of an inference server that speaks ZeroMQ.
#[derive(Debug)]
pub struct ZmqTransportInferenceAddresses {
    pub inference_server_address: NetworkParams,
    pub inference_scaling_server_address: NetworkParams,
}

impl Clone for ZmqTransportInferenceAddresses {
    fn clone(&self) -> (r: Self)
        ensures
            r == *self,
    {
        ZmqTransportInferenceAddresses {
            inference_server_address: self.inference_server_address.clone(),
            inference_scaling_server_address: self.inference_scaling_server_address.clone(),
        }
    }
}

/// The addresses of a training server that speaks ZeroMQ.
#[derive(Debug)]
pub struct ZmqTransportTrainingAddresses {
    pub agent_listener_address: NetworkParams,
    pub model_server_address: NetworkParams,
    pub trajectory_server_address: NetworkParams,
    pub training_scaling_server_address: NetworkParams,
}

impl Clone for ZmqTransportTrainingAddresses {
    fn clone(&self) -> (r: Self)
        ensures
            r == *self,
    {
        ZmqTransportTrainingAddresses {
            agent_listener_address: self.agent_listener_address.clone(),
            model_server_address: self.model_server_address.clone(),
            trajectory_server_address: self.trajectory_server_address.clone(),
            training_scaling_server_address: self.training_scaling_server_address.clone(),
        }
    }
}

/// All ZeroMQ addresses.
#[derive(Debug)]
pub struct ZmqTransportAddresses {
    pub inference_addresses: ZmqTransportInferenceAddresses,
    pub training_addresses: ZmqTransportTrainingAddresses,
}

impl Clone for ZmqTransportAddresses {
    fn clone(&self) -> (r: Self)
        ensures
            r == *self,
    {
        ZmqTransportAddresses {
            inference_addresses: self.inference_addresses.clone(),
            training_addresses: self.training_addresses.clone(),
        }
    }
}

/// All NATS addresses.
#[derive(Debug)]
pub struct NatsTransportAddresses {
    pub inference_server_address: NetworkParams,
    pub training_server_address: NetworkParams,
}

impl Clone for NatsTransportAddresses {
    fn clone(&self) -> (r: Self)
        ensures
            r == *self,
    {
        NatsTransportAddresses {
            inference_server_address: self.inference_server_address.clone(),
            training_server_address: self.training_server_address.clone(),
        }
    }
}

/// Where the local model module lies: a directory, a file name and the format that ends it.
#[derive(Debug)]
pub struct LocalModelModuleParams {
    pub directory: String,
    pub model_name: String,
    pub format: String,
}

impl LocalModelModuleParams {
    /// Whether the module has this directory, name and format.
    pub open spec fn reads(self, directory: Seq<char>, model_name: Seq<char>, format: Seq<char>) -> bool {
        self.directory@ == directory && self.model_name@ == model_name && self.format@ == format
    }
}

impl Clone for LocalModelModuleParams {
    fn clone(&self) -> (r: Self)
        ensures
            r == *self,
    {
        LocalModelModuleParams {
            directory: self.directory.clone(),
            model_name: self.model_name.clone(),
            format: self.format.clone(),
        }
    }
}

/// The transport part of a configuration.
#[derive(Debug)]
pub struct TransportConfigParams {
    pub nats_addresses: NatsTransportAddresses,
    pub zmq_addresses: ZmqTransportAddresses,
    pub max_traj_length: usize,
    pub local_model_module: LocalModelModuleParams,
}

impl Clone for TransportConfigParams {
    fn clone(&self) -> (r: Self)
        ensures
            r == *self,
    {
        TransportConfigParams {
            nats_addresses: self.nats_addresses.clone(),
            zmq_addresses: self.zmq_addresses.clone(),
            max_traj_length: self.max_traj_length,
            local_model_module: self.local_model_module.clone(),
        }
    }
}

impl TransportConfigParams {
    pub fn get_nats_inference_server_address(&self) -> (r: &NetworkParams)
        ensures
            *r == self.nats_addresses.inference_server_address,
    {
        &self.nats_addresses.inference_server_address
    }

    pub fn get_nats_training_server_address(&self) -> (r: &NetworkParams)
        ensures
            *r == self.nats_addresses.training_server_address,
    {
        &self.nats_addresses.training_server_address
    }

    pub fn get_zmq_inference_server_address(&self) -> (r: &NetworkParams)
        ensures
            *r == self.zmq_addresses.inference_addresses.inference_server_address,
    {
        &self.zmq_addresses.inference_addresses.inference_server_address
    }

    pub fn get_zmq_agent_listener_address(&self) -> (r: &NetworkParams)
        ensures
            *r == self.zmq_addresses.training_addresses.agent_listener_address,
    {
        &self.zmq_addresses.training_addresses.agent_listener_address
    }

    pub fn get_zmq_model_server_address(&self) -> (r: &NetworkParams)
        ensures
            *r == self.zmq_addresses.training_addresses.model_server_address,
    {
        &self.zmq_addresses.training_addresses.model_server_address
    }

    pub fn get_zmq_trajectory_server_address(&self) -> (r: &NetworkParams)
        ensures
            *r == self.zmq_addresses.training_addresses.trajectory_server_address,
    {
        &self.zmq_addresses.training_addresses.trajectory_server_address
    }

    pub fn get_zmq_inference_scaling_server_address(&self) -> (r: &NetworkParams)
        ensures
            *r == self.zmq_addresses.inference_addresses.inference_scaling_server_address,
    {
        &self.zmq_addresses.inference_addresses.inference_scaling_server_address
    }

    pub fn get_zmq_training_scaling_server_address(&self) -> (r: &NetworkParams)
        ensures
            *r == self.zmq_addresses.training_addresses.training_scaling_server_address,
    {
        &self.zmq_addresses.training_addresses.training_scaling_server_address
    }
}

/// Collects the transport part of a configuration piece by piece.
pub trait TransportConfigBuildParams: Sized {
    fn set_nats_inference_server_address(&mut self, host: &str, port: &str) -> &mut Self;

    fn set_nats_training_server_address(&mut self, host: &str, port: &str) -> &mut Self;

    fn set_zmq_inference_server_address(&mut self, host: &str, port: &str) -> &mut Self;

    fn set_zmq_agent_listener_address(&mut self, host: &str, port: &str) -> &mut Self;

    fn set_zmq_model_server_address(&mut self, host: &str, port: &str) -> &mut Self;

    fn set_zmq_trajectory_server_address(&mut self, host: &str, port: &str) -> &mut Self;

    fn set_zmq_inference_scaling_server_address(&mut self, host: &str, port: &str) -> &mut Self;

    fn set_zmq_training_scaling_server_address(&mut self, host: &str, port: &str) -> &mut Self;

    fn set_max_traj_length(&mut self, max_traj_length: usize) -> &mut Self;

    fn set_local_model_module(&mut self, directory_name: &str, model_name: &str) -> &mut Self;

    fn build(&self) -> TransportConfigParams;

    fn build_default() -> TransportConfigParams;
}

/// The pieces that have been set so far.
pub struct TransportConfigBuilder {
    pub nats_inference_server_address: Option<NetworkParams>,
    pub nats_training_server_address: Option<NetworkParams>,
    pub zmq_inference_server_address: Option<NetworkParams>,
    pub zmq_agent_listener_address: Option<NetworkParams>,
    pub zmq_model_server_address: Option<NetworkParams>,
    pub zmq_trajectory_server_address: Option<NetworkParams>,
    pub zmq_inference_scaling_server_address: Option<NetworkParams>,
    pub zmq_training_scaling_server_address: Option<NetworkParams>,
    pub max_traj_length: Option<usize>,
    pub local_model_module: Option<LocalModelModuleParams>,
}

/// An address that was set is kept; one that was not is the local host with the port given.
pub open spec fn address_or_local(set: Option<NetworkParams>, port: Seq<char>, r: NetworkParams) -> bool {
    match set {
        Some(address) => r == address,
        None => r.reads("127.0.0.1"@, port),
    }
}

/// What building makes of the pieces.
pub open spec fn built(b: TransportConfigBuilder, r: TransportConfigParams) -> bool {
    &&& address_or_local(b.nats_inference_server_address, "50050"@, r.nats_addresses.inference_server_address)
    &&& address_or_local(b.nats_training_server_address, "50051"@, r.nats_addresses.training_server_address)
    &&& address_or_local(b.zmq_inference_server_address, "50050"@, r.zmq_addresses.inference_addresses.inference_server_address)
    &&& address_or_local(b.zmq_agent_listener_address, "7778"@, r.zmq_addresses.training_addresses.agent_listener_address)
    &&& address_or_local(b.zmq_model_server_address, "50051"@, r.zmq_addresses.training_addresses.model_server_address)
    &&& address_or_local(b.zmq_trajectory_server_address, "7776"@, r.zmq_addresses.training_addresses.trajectory_server_address)
    &&& address_or_local(b.zmq_inference_scaling_server_address, "7777"@, r.zmq_addresses.inference_addresses.inference_scaling_server_address)
    &&& address_or_local(b.zmq_training_scaling_server_address, "7778"@, r.zmq_addresses.training_addresses.training_scaling_server_address)
    &&& r.max_traj_length == match b.max_traj_length {
        Some(length) => length,
        None => 1000,
    }
    &&& match b.local_model_module {
        Some(module) => r.local_model_module == module,
        None => r.local_model_module.reads("model_module"@, "model"@, "pt"@),
    }
}

/// What is built without a builder.
pub open spec fn built_by_default(r: TransportConfigParams) -> bool {
    &&& r.nats_addresses.inference_server_address.reads("127.0.0.1"@, "50050"@)
    &&& r.nats_addresses.training_server_address.reads("127.0.0.1"@, "50051"@)
    &&& r.zmq_addresses.inference_addresses.inference_server_address.reads("127.0.0.1"@, "50050"@)
    &&& r.zmq_addresses.training_addresses.agent_listener_address.reads("127.0.0.1"@, "7779"@)
    &&& r.zmq_addresses.training_addresses.model_server_address.reads("127.0.0.1"@, "50051"@)
    &&& r.zmq_addresses.training_addresses.trajectory_server_address.reads("127.0.0.1"@, "7776"@)
    &&& r.zmq_addresses.inference_addresses.inference_scaling_server_address.reads("127.0.0.1"@, "7777"@)
    &&& r.zmq_addresses.training_addresses.training_scaling_server_address.reads("127.0.0.1"@, "7778"@)
    &&& r.max_traj_length == 100000000
    &&& r.local_model_module.reads("model_module"@, "model"@, "pt"@)
}

fn address_or(set: &Option<NetworkParams>, port: &str) -> (r: NetworkParams)
    ensures
        address_or_local(*set, port@, r),
{
    match set {
        Some(address) => address.clone(),
        None => NetworkParams::of("127.0.0.1", port),
    }
}

impl TransportConfigBuildParams for TransportConfigBuilder {
    fn set_nats_inference_server_address(&mut self, host: &str, port: &str) -> (r: &mut Self)
        ensures
            r.nats_inference_server_address is Some,
            r.nats_inference_server_address->0.reads(host@, port@),
            *r == (TransportConfigBuilder { nats_inference_server_address: r.nats_inference_server_address, ..*old(self) }),
            *final(self) == *final(r),
    {
        self.nats_inference_server_address = Some(NetworkParams::of(host, port));
        self
    }

    fn set_nats_training_server_address(&mut self, host: &str, port: &str) -> (r: &mut Self)
        ensures
            r.nats_training_server_address is Some,
            r.nats_training_server_address->0.reads(host@, port@),
            *r == (TransportConfigBuilder { nats_training_server_address: r.nats_training_server_address, ..*old(self) }),
            *final(self) == *final(r),
    {
        self.nats_training_server_address = Some(NetworkParams::of(host, port));
        self
    }

    fn set_zmq_inference_server_address(&mut self, host: &str, port: &str) -> (r: &mut Self)
        ensures
            r.zmq_inference_server_address is Some,
            r.zmq_inference_server_address->0.reads(host@, port@),
            *r == (TransportConfigBuilder { zmq_inference_server_address: r.zmq_inference_server_address, ..*old(self) }),
            *final(self) == *final(r),
    {
        self.zmq_inference_server_address = Some(NetworkParams::of(host, port));
        self
    }

    fn set_zmq_agent_listener_address(&mut self, host: &str, port: &str) -> (r: &mut Self)
        ensures
            r.zmq_agent_listener_address is Some,
            r.zmq_agent_listener_address->0.reads(host@, port@),
            *r == (TransportConfigBuilder { zmq_agent_listener_address: r.zmq_agent_listener_address, ..*old(self) }),
            *final(self) == *final(r),
    {
        self.zmq_agent_listener_address = Some(NetworkParams::of(host, port));
        self
    }

    fn set_zmq_model_server_address(&mut self, host: &str, port: &str) -> (r: &mut Self)
        ensures
            r.zmq_model_server_address is Some,
            r.zmq_model_server_address->0.reads(host@, port@),
            *r == (TransportConfigBuilder { zmq_model_server_address: r.zmq_model_server_address, ..*old(self) }),
            *final(self) == *final(r),
    {
        self.zmq_model_server_address = Some(NetworkParams::of(host, port));
        self
    }

    fn set_zmq_trajectory_server_address(&mut self, host: &str, port: &str) -> (r: &mut Self)
        ensures
            r.zmq_trajectory_server_address is Some,
            r.zmq_trajectory_server_address->0.reads(host@, port@),
            *r == (TransportConfigBuilder { zmq_trajectory_server_address: r.zmq_trajectory_server_address, ..*old(self) }),
            *final(self) == *final(r),
    {
        self.zmq_trajectory_server_address = Some(NetworkParams::of(host, port));
        self
    }

    fn set_zmq_inference_scaling_server_address(&mut self, host: &str, port: &str) -> (r: &mut Self)
        ensures
            r.zmq_inference_scaling_server_address is Some,
            r.zmq_inference_scaling_server_address->0.reads(host@, port@),
            *r == (TransportConfigBuilder { zmq_inference_scaling_server_address: r.zmq_inference_scaling_server_address, ..*old(self) }),
            *final(self) == *final(r),
    {
        self.zmq_inference_scaling_server_address = Some(NetworkParams::of(host, port));
        self
    }

    fn set_zmq_training_scaling_server_address(&mut self, host: &str, port: &str) -> (r: &mut Self)
        ensures
            r.zmq_training_scaling_server_address is Some,
            r.zmq_training_scaling_server_address->0.reads(host@, port@),
            *r == (TransportConfigBuilder { zmq_training_scaling_server_address: r.zmq_training_scaling_server_address, ..*old(self) }),
            *final(self) == *final(r),
    {
        self.zmq_training_scaling_server_address = Some(NetworkParams::of(host, port));
        self
    }

    fn set_max_traj_length(&mut self, max_traj_length: usize) -> (r: &mut Self)
        ensures
            *r == (TransportConfigBuilder { max_traj_length: Some(max_traj_length), ..*old(self) }),
            *final(self) == *final(r),
    {
        self.max_traj_length = Some(max_traj_length);
        self
    }

    fn set_local_model_module(&mut self, directory_name: &str, model_name: &str) -> (r: &mut Self)
        ensures
            r.local_model_module is Some,
            r.local_model_module->0.reads(directory_name@, model_name@, "pt"@),
            *r == (TransportConfigBuilder { local_model_module: r.local_model_module, ..*old(self) }),
            *final(self) == *final(r),
    {
        self.local_model_module = Some(
            LocalModelModuleParams {
                directory: directory_name.to_owned(),
                model_name: model_name.to_owned(),
                format: "pt".to_owned(),
            },
        );
        self
    }

    fn build(&self) -> (r: TransportConfigParams)
        ensures
            built(*self, r),
    {
        TransportConfigParams {
            nats_addresses: NatsTransportAddresses {
                inference_server_address: address_or(&self.nats_inference_server_address, "50050"),
                training_server_address: address_or(&self.nats_training_server_address, "50051"),
            },
            zmq_addresses: ZmqTransportAddresses {
                inference_addresses: ZmqTransportInferenceAddresses {
                    inference_server_address: address_or(
                        &self.zmq_inference_server_address,
                        "50050",
                    ),
                    inference_scaling_server_address: address_or(
                        &self.zmq_inference_scaling_server_address,
                        "7777",
                    ),
                },
                training_addresses: ZmqTransportTrainingAddresses {
                    agent_listener_address: address_or(&self.zmq_agent_listener_address, "7778"),
                    model_server_address: address_or(&self.zmq_model_server_address, "50051"),
                    trajectory_server_address: address_or(
                        &self.zmq_trajectory_server_address,
                        "7776",
                    ),
                    training_scaling_server_address: address_or(
                        &self.zmq_training_scaling_server_address,
                        "7778",
                    ),
                },
            },
            max_traj_length: match self.max_traj_length {
                Some(length) => length,
                None => 1000,
            },
            local_model_module: match &self.local_model_module {
                Some(module) => module.clone(),
                None => LocalModelModuleParams {
                    directory: "model_module".to_owned(),
                    model_name: "model".to_owned(),
                    format: "pt".to_owned(),
                },
            },
        }
    }

    fn build_default() -> (r: TransportConfigParams)
        ensures
            built_by_default(r),
    {
        TransportConfigParams {
            nats_addresses: NatsTransportAddresses {
                inference_server_address: NetworkParams::of("127.0.0.1", "50050"),
                training_server_address: NetworkParams::of("127.0.0.1", "50051"),
            },
            zmq_addresses: ZmqTransportAddresses {
                inference_addresses: ZmqTransportInferenceAddresses {
                    inference_server_address: NetworkParams::of("127.0.0.1", "50050"),
                    inference_scaling_server_address: NetworkParams::of("127.0.0.1", "7777"),
                },
                training_addresses: ZmqTransportTrainingAddresses {
                    agent_listener_address: NetworkParams::of("127.0.0.1", "7779"),
                    model_server_address: NetworkParams::of("127.0.0.1", "50051"),
                    trajectory_server_address: NetworkParams::of("127.0.0.1", "7776"),
                    training_scaling_server_address: NetworkParams::of("127.0.0.1", "7778"),
                },
            },
            max_traj_length: 100000000,
            local_model_module: LocalModelModuleParams {
                directory: "model_module".to_owned(),
                model_name: "model".to_owned(),
                format: "pt".to_owned(),
            },
        }
    }
}

/// Every piece that was set stands unchanged in what is built.
pub proof fn law_set_pieces_are_built(b: TransportConfigBuilder, r: TransportConfigParams)
    requires
        built(b, r),
    ensures
        b.nats_inference_server_address matches Some(a) ==> r.nats_addresses.inference_server_address == a,
        b.nats_training_server_address matches Some(a) ==> r.nats_addresses.training_server_address == a,
        b.zmq_inference_server_address matches Some(a)
            ==> r.zmq_addresses.inference_addresses.inference_server_address == a,
        b.zmq_agent_listener_address matches Some(a)
            ==> r.zmq_addresses.training_addresses.agent_listener_address == a,
        b.zmq_model_server_address matches Some(a)
            ==> r.zmq_addresses.training_addresses.model_server_address == a,
        b.zmq_trajectory_server_address matches Some(a)
            ==> r.zmq_addresses.training_addresses.trajectory_server_address == a,
        b.zmq_inference_scaling_server_address matches Some(a)
            ==> r.zmq_addresses.inference_addresses.inference_scaling_server_address == a,
        b.zmq_training_scaling_server_address matches Some(a)
            ==> r.zmq_addresses.training_addresses.training_scaling_server_address == a,
        b.max_traj_length matches Some(n) ==> r.max_traj_length == n,
        b.local_model_module matches Some(m) ==> r.local_model_module == m,
{
}

/// Where nothing was set, servers are looked for on the local host, each at its own port, and
/// trajectories and the local model have their usual length and place.
pub proof fn law_unset_pieces_have_their_defaults(b: TransportConfigBuilder, r: TransportConfigParams)
    requires
        built(b, r),
    ensures
        b.nats_inference_server_address is None ==> r.nats_addresses.inference_server_address.host@ == "127.0.0.1"@
            && r.nats_addresses.inference_server_address.port@ == "50050"@,
        b.nats_training_server_address is None ==> r.nats_addresses.training_server_address.host@ == "127.0.0.1"@
            && r.nats_addresses.training_server_address.port@ == "50051"@,
        b.zmq_inference_server_address is None ==> r.zmq_addresses.inference_addresses.inference_server_address.host@ == "127.0.0.1"@
            && r.zmq_addresses.inference_addresses.inference_server_address.port@ == "50050"@,
        b.zmq_agent_listener_address is None ==> r.zmq_addresses.training_addresses.agent_listener_address.host@ == "127.0.0.1"@
            && r.zmq_addresses.training_addresses.agent_listener_address.port@ == "7778"@,
        b.zmq_model_server_address is None ==> r.zmq_addresses.training_addresses.model_server_address.host@ == "127.0.0.1"@
            && r.zmq_addresses.training_addresses.model_server_address.port@ == "50051"@,
        b.zmq_trajectory_server_address is None ==> r.zmq_addresses.training_addresses.trajectory_server_address.host@ == "127.0.0.1"@
            && r.zmq_addresses.training_addresses.trajectory_server_address.port@ == "7776"@,
        b.zmq_inference_scaling_server_address is None ==> r.zmq_addresses.inference_addresses.inference_scaling_server_address.host@ == "127.0.0.1"@
            && r.zmq_addresses.inference_addresses.inference_scaling_server_address.port@ == "7777"@,
        b.zmq_training_scaling_server_address is None ==> r.zmq_addresses.training_addresses.training_scaling_server_address.host@ == "127.0.0.1"@
            && r.zmq_addresses.training_addresses.training_scaling_server_address.port@ == "7778"@,
        b.max_traj_length is None ==> r.max_traj_length == 1000,
        b.local_model_module is None ==> r.local_model_module.directory@ == "model_module"@
            && r.local_model_module.model_name@ == "model"@ && r.local_model_module.format@ == "pt"@,
{
}

/// What is built without a builder looks for servers on the local host too; only the agent listener
/// has another port there, and trajectories may grow longer.
pub proof fn law_default_transports_are_local(r: TransportConfigParams)
    requires
        built_by_default(r),
    ensures
        r.nats_addresses.inference_server_address.host@ == "127.0.0.1"@
            && r.nats_addresses.inference_server_address.port@ == "50050"@,
        r.nats_addresses.training_server_address.host@ == "127.0.0.1"@
            && r.nats_addresses.training_server_address.port@ == "50051"@,
        r.zmq_addresses.inference_addresses.inference_server_address.host@ == "127.0.0.1"@
            && r.zmq_addresses.inference_addresses.inference_server_address.port@ == "50050"@,
        r.zmq_addresses.training_addresses.agent_listener_address.host@ == "127.0.0.1"@
            && r.zmq_addresses.training_addresses.agent_listener_address.port@ == "7779"@,
        r.zmq_addresses.training_addresses.model_server_address.host@ == "127.0.0.1"@
            && r.zmq_addresses.training_addresses.model_server_address.port@ == "50051"@,
        r.zmq_addresses.training_addresses.trajectory_server_address.host@ == "127.0.0.1"@
            && r.zmq_addresses.training_addresses.trajectory_server_address.port@ == "7776"@,
        r.zmq_addresses.inference_addresses.inference_scaling_server_address.host@ == "127.0.0.1"@
            && r.zmq_addresses.inference_addresses.inference_scaling_server_address.port@ == "7777"@,
        r.zmq_addresses.training_addresses.training_scaling_server_address.host@ == "127.0.0.1"@
            && r.zmq_addresses.training_addresses.training_scaling_server_address.port@ == "7778"@,
        r.max_traj_length == 100000000,
        r.local_model_module.directory@ == "model_module"@,
        r.local_model_module.model_name@ == "model"@,
        r.local_model_module.format@ == "pt"@,
{
}

/// An address consists of its host and its port, and a module of its directory, name and format.
pub proof fn law_addresses_read_as_written(
    a: NetworkParams,
    host: Seq<char>,
    port: Seq<char>,
    m: LocalModelModuleParams,
    directory: Seq<char>,
    model_name: Seq<char>,
    format: Seq<char>,
)
    ensures
        a.reads(host, port) <==> a.host@ == host && a.port@ == port,
        m.reads(directory, model_name, format) <==> m.directory@ == directory && m.model_name@
            == model_name && m.format@ == format,
{
}

} // verus!
