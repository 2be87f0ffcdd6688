//! What a runtime shares with its parts and reloads when its configuration changes.

use crate::configuration::{ClientConfigLoader, OtlpEndpointParams};
use crate::hyperparameters::{
    arguments_of, Algorithm, AlgorithmView, HyperparameterConfig, HyperparameterTable,
};
use crate::modes::{LocalTrajectoryFileParams, TransportType};
use crate::paths::{FilePath, PathView};
use crate::transport_config::{LocalModelModuleParams, NetworkParams, TransportConfigParams};
use vstd::prelude::*;

verus! {

/// Addresses of a ZeroMQ inference server, ready to connect to.
#[derive(Debug)]
pub struct SharedZmqInferenceAddresses {
    pub inference_server_address: String,
    pub inference_scaling_server_address: String,
}

/// Addresses of a ZeroMQ training server, ready to connect to.
#[derive(Debug)]
pub struct SharedZmqTrainingAddresses {
    pub agent_listener_address: String,
    pub model_server_address: String,
    pub trajectory_server_address: String,
    pub training_scaling_server_address: String,
}

/// All addresses, ready to connect to. Those of the transport that is not in use are empty.
#[derive(Debug)]
pub struct SharedTransportAddresses {
    pub nats_inference_address: String,
    pub nats_training_address: String,
    pub zmq_inference_addresses: SharedZmqInferenceAddresses,
    pub zmq_training_addresses: SharedZmqTrainingAddresses,
}

impl Clone for SharedTransportAddresses {
    fn clone(&self) -> (r: Self)
        ensures
            r == *self,
    {
        SharedTransportAddresses {
            nats_inference_address: self.nats_inference_address.clone(),
            nats_training_address: self.nats_training_address.clone(),
            zmq_inference_addresses: SharedZmqInferenceAddresses {
                inference_server_address: self.zmq_inference_addresses.inference_server_address.clone(),
                inference_scaling_server_address:
                    self.zmq_inference_addresses.inference_scaling_server_address.clone(),
            },
            zmq_training_addresses: SharedZmqTrainingAddresses {
                agent_listener_address: self.zmq_training_addresses.agent_listener_address.clone(),
                model_server_address: self.zmq_training_addresses.model_server_address.clone(),
                trajectory_server_address:
                    self.zmq_training_addresses.trajectory_server_address.clone(),
                training_scaling_server_address:
                    self.zmq_training_addresses.training_scaling_server_address.clone(),
            },
        }
    }
}

/// The text of an address: the scheme of the transport, the host, a colon and the port.
pub open spec fn address_chars(transport_type: TransportType, a: NetworkParams) -> Seq<char> {
    (match transport_type {
        TransportType::ZMQ => "tcp://"@,
        TransportType::NATS => "nats://"@,
    }) + a.host@ + ":"@ + a.port@
}

fn construct_address(transport_type: &TransportType, network_params: &NetworkParams) -> (r: String)
    ensures
        r@ == address_chars(*transport_type, *network_params),
{
    let mut r = match transport_type {
        TransportType::ZMQ => "tcp://".to_owned(),
        TransportType::NATS => "nats://".to_owned(),
    };
    r.append(network_params.host.as_str());
    r.append(":");
    r.append(network_params.port.as_str());
    r
}

/// The addresses that a configuration gives for a transport.
pub open spec fn addresses_of(
    c: TransportConfigParams,
    t: TransportType,
    r: SharedTransportAddresses,
) -> bool {
    let zmq = t == TransportType::ZMQ;
    let text = |used: bool, a: NetworkParams|
        if used {
            address_chars(t, a)
        } else {
            Seq::<char>::empty()
        };
    let inference = c.zmq_addresses.inference_addresses;
    let training = c.zmq_addresses.training_addresses;
    &&& r.nats_inference_address@ == text(!zmq, c.nats_addresses.inference_server_address)
    &&& r.nats_training_address@ == text(!zmq, c.nats_addresses.training_server_address)
    &&& r.zmq_inference_addresses.inference_server_address@ == text(
        zmq,
        inference.inference_server_address,
    )
    &&& r.zmq_inference_addresses.inference_scaling_server_address@ == text(
        zmq,
        inference.inference_scaling_server_address,
    )
    &&& r.zmq_training_addresses.agent_listener_address@ == text(
        zmq,
        training.agent_listener_address,
    )
    &&& r.zmq_training_addresses.model_server_address@ == text(zmq, training.model_server_address)
    &&& r.zmq_training_addresses.trajectory_server_address@ == text(
        zmq,
        training.trajectory_server_address,
    )
    &&& r.zmq_training_addresses.training_scaling_server_address@ == text(
        zmq,
        training.training_scaling_server_address,
    )
}

/// Makes the addresses that a configuration gives for a transport.
pub fn construct_transport_addresses(
    transport_config: &TransportConfigParams,
    transport_type: &TransportType,
) -> (r: SharedTransportAddresses)
    ensures
        addresses_of(*transport_config, *transport_type, r),
{
    match transport_type {
        TransportType::ZMQ => {
            let inference = &transport_config.zmq_addresses.inference_addresses;
            let training = &transport_config.zmq_addresses.training_addresses;
            SharedTransportAddresses {
                nats_inference_address: String::new(),
                nats_training_address: String::new(),
                zmq_inference_addresses: SharedZmqInferenceAddresses {
                    inference_server_address: construct_address(
                        transport_type,
                        &inference.inference_server_address,
                    ),
                    inference_scaling_server_address: construct_address(
                        transport_type,
                        &inference.inference_scaling_server_address,
                    ),
                },
                zmq_training_addresses: SharedZmqTrainingAddresses {
                    agent_listener_address: construct_address(
                        transport_type,
                        &training.agent_listener_address,
                    ),
                    model_server_address: construct_address(
                        transport_type,
                        &training.model_server_address,
                    ),
                    trajectory_server_address: construct_address(
                        transport_type,
                        &training.trajectory_server_address,
                    ),
                    training_scaling_server_address: construct_address(
                        transport_type,
                        &training.training_scaling_server_address,
                    ),
                },
            }
        },
        TransportType::NATS => SharedTransportAddresses {
            nats_inference_address: construct_address(
                transport_type,
                &transport_config.nats_addresses.inference_server_address,
            ),
            nats_training_address: construct_address(
                transport_type,
                &transport_config.nats_addresses.training_server_address,
            ),
            zmq_inference_addresses: SharedZmqInferenceAddresses {
                inference_server_address: String::new(),
                inference_scaling_server_address: String::new(),
            },
            zmq_training_addresses: SharedZmqTrainingAddresses {
                agent_listener_address: String::new(),
                model_server_address: String::new(),
                trajectory_server_address: String::new(),
                training_scaling_server_address: String::new(),
            },
        },
    }
}

/// No address of the transport in use is empty, and all of the other's are.
pub proof fn law_only_the_transport_in_use_has_addresses(
    c: TransportConfigParams,
    t: TransportType,
    r: SharedTransportAddresses,
)
    requires
        addresses_of(c, t, r),
    ensures
        (r.nats_inference_address@.len() > 0) == (t == TransportType::NATS),
        (r.nats_training_address@.len() > 0) == (t == TransportType::NATS),
        (r.zmq_inference_addresses.inference_server_address@.len() > 0) == (t == TransportType::ZMQ),
        (r.zmq_inference_addresses.inference_scaling_server_address@.len() > 0) == (t
            == TransportType::ZMQ),
        (r.zmq_training_addresses.agent_listener_address@.len() > 0) == (t == TransportType::ZMQ),
        (r.zmq_training_addresses.model_server_address@.len() > 0) == (t == TransportType::ZMQ),
        (r.zmq_training_addresses.trajectory_server_address@.len() > 0) == (t == TransportType::ZMQ),
        (r.zmq_training_addresses.training_scaling_server_address@.len() > 0) == (t
            == TransportType::ZMQ),
{
    reveal_strlit("tcp://");
    reveal_strlit("nats://");
    reveal_strlit(":");
}

/// The text of a metrics endpoint.
pub open spec fn endpoint_chars(e: OtlpEndpointParams) -> Seq<char> {
    e.prefix@ + e.host@ + ":"@ + e.port@
}

/// Makes the text of a metrics endpoint.
pub fn construct_metrics_otlp_endpoint(metrics_otlp_endpoint: &OtlpEndpointParams) -> (r: String)
    ensures
        r@ == endpoint_chars(*metrics_otlp_endpoint),
{
    let mut r = metrics_otlp_endpoint.prefix.clone();
    r.append(metrics_otlp_endpoint.host.as_str());
    r.append(":");
    r.append(metrics_otlp_endpoint.port.as_str());
    r
}

/// The text, or another in its place if it is empty.
pub open spec fn or_else(s: Seq<char>, fallback: Seq<char>) -> Seq<char> {
    if s.len() == 0 {
        fallback
    } else {
        s
    }
}

/// The text without the dots at its start.
pub open spec fn without_leading_dots(s: Seq<char>) -> Seq<char>
    decreases s.len(),
{
    if s.len() > 0 && s[0] == '.' {
        without_leading_dots(s.skip(1))
    } else {
        s
    }
}

fn text_or(s: &String, fallback: &str) -> (r: String)
    ensures
        r@ == or_else(s@, fallback@),
{
    if s.as_str().is_empty() {
        fallback.to_owned()
    } else {
        s.clone()
    }
}

fn strip_leading_dots(s: &String) -> (r: String)
    ensures
        r@ == without_leading_dots(s@),
{
    let text = s.as_str();
    let n: usize = text.unicode_len();
    let mut from: usize = 0;
    proof {
        assert(s@.skip(0) =~= s@);
    }
    while from < n && text.get_char(from) == '.'
        invariant
            from <= n,
            n == s@.len(),
            text@ == s@,
            without_leading_dots(s@) == without_leading_dots(s@.skip(from as int)),
        decreases n - from,
    {
        proof {
            assert(s@.skip(from as int).skip(1) =~= s@.skip(from as int + 1));
        }
        from = from + 1;
    }
    proof {
        assert(s@.subrange(from as int, n as int) =~= s@.skip(from as int));
    }
    text.substring_char(from, n).to_owned()
}

/// Where the local model lies: in the directory given, or `model_module`, below the working
/// directory; under the name given, or `client_model`; with the format given, without dots before
/// it, or `pt`.
pub open spec fn local_model_place(
    working_directory: Seq<char>,
    module: LocalModelModuleParams,
) -> PathView {
    PathView::Plain(working_directory).join(
        PathView::Plain(or_else(module.directory@, "model_module"@)),
    ).join(
        PathView::Plain(
            or_else(module.model_name@, "client_model"@) + "."@ + (if module.format@.len() == 0 {
                "pt"@
            } else {
                without_leading_dots(module.format@)
            }),
        ),
    )
}

/// Makes the path of the local model.
pub fn construct_local_model_path(
    working_directory: &str,
    local_model_module: &LocalModelModuleParams,
) -> (r: FilePath)
    ensures
        r@ == local_model_place(working_directory@, *local_model_module),
{
    let directory = text_or(&local_model_module.directory, "model_module");
    let mut file_name = text_or(&local_model_module.model_name, "client_model");
    let format = if local_model_module.format.as_str().is_empty() {
        "pt".to_owned()
    } else {
        strip_leading_dots(&local_model_module.format)
    };
    file_name.append(".");
    file_name.append(format.as_str());
    FilePath::of(working_directory).join(FilePath::Plain(directory)).join(
        FilePath::Plain(file_name),
    )
}

/// The trajectory output below the working directory; the format stays.
pub open spec fn is_output_below(
    working_directory: Seq<char>,
    given: LocalTrajectoryFileParams,
    r: LocalTrajectoryFileParams,
) -> bool {
    r.reads(PathView::Plain(working_directory).join(given.directory@), given.file_type)
}

/// Makes the trajectory output below the working directory.
pub fn construct_trajectory_file_output(
    working_directory: &str,
    trajectory_file_output: &LocalTrajectoryFileParams,
) -> (r: LocalTrajectoryFileParams)
    ensures
        is_output_below(working_directory@, *trajectory_file_output, r),
{
    LocalTrajectoryFileParams {
        directory: FilePath::of(working_directory).join(trajectory_file_output.directory.clone()),
        file_type: trajectory_file_output.file_type,
    }
}

/// The paths of a configuration are seen from the working directory. That of the local model is
/// never empty; that of trajectory files is where its directory and the working directory both are.
pub proof fn law_paths_start_at_the_working_directory(
    working_directory: Seq<char>,
    module: LocalModelModuleParams,
    given: LocalTrajectoryFileParams,
    output: LocalTrajectoryFileParams,
)
    requires
        is_output_below(working_directory, given, output),
    ensures
        local_model_place(working_directory, module).root() == working_directory,
        !local_model_place(working_directory, module).is_empty(),
        output.directory@.root() == working_directory,
        output.directory@.is_empty() == (working_directory.len() == 0
            && given.directory@.is_empty()),
{
    reveal_strlit(".");
    reveal_with_fuel(PathView::root, 3);
    reveal_with_fuel(PathView::is_empty, 3);
}

/// What a runtime shares with its parts.
pub struct LifecycleManager {
    pub algorithm: Algorithm,
    pub transport_type: TransportType,
    pub max_traj_length: usize,
    pub transport_addresses: SharedTransportAddresses,
    pub metrics_meter_name: String,
    pub metrics_endpoint: String,
    pub init_hyperparameters: HyperparameterTable,
    pub local_model_path: FilePath,
    pub trajectory_file_output: LocalTrajectoryFileParams,
    pub config_path: String,
    /// When the configuration file was last seen to change, in nanoseconds since the epoch.
    pub last_modified: i128,
    pub config_update_polling_seconds: u64,
}

/// What can happen while the configuration is watched.
#[derive(Clone, Copy, Debug, PartialEq, Eq, Structural)]
pub enum WatchEvent {
    Interrupted,
    ShutdownRequested,
    /// It is time to look at the file, which was modified at the time given, if that is known.
    Tick { modified: Option<i128> },
}

/// What is to be done next while the configuration is watched.
#[derive(Clone, Copy, Debug, PartialEq, Eq, Structural)]
pub enum WatchAction {
    SignalShutdownAndStop,
    Wait,
    /// Read the configuration anew, and from now on look at it in another interval if one is given.
    Reload { interval: Option<u64> },
}

impl LifecycleManager {
    /// What a reload takes over from a configuration.
    pub open spec fn reflects(self, c: ClientConfigLoader, asked: Option<AlgorithmView>, working_directory: Seq<char>) -> bool {
        &&& self.max_traj_length == c.transport_config.max_traj_length
        &&& addresses_of(c.transport_config, self.transport_type, self.transport_addresses)
        &&& self.metrics_meter_name@ == c.client_config.metrics_meter_name@
        &&& self.metrics_endpoint@ == endpoint_chars(c.client_config.metrics_otlp_endpoint)
        &&& self.init_hyperparameters.wf()
        &&& self.init_hyperparameters@ == arguments_of(c.client_config.init_hyperparameters, asked)
        &&& self.local_model_path@ == local_model_place(
            working_directory,
            c.transport_config.local_model_module,
        )
        &&& is_output_below(
            working_directory,
            c.client_config.trajectory_file_output,
            self.trajectory_file_output,
        )
    }

    pub fn new(
        algorithm: Algorithm,
        config: &ClientConfigLoader,
        config_path: String,
        transport_type: TransportType,
        working_directory: &str,
        last_modified: i128,
        config_update_polling_seconds: u64,
    ) -> (r: Self)
        requires
            config.client_config.init_hyperparameters.wf(),
        ensures
            r.reflects(*config, None, working_directory@),
            r.algorithm == algorithm,
            r.transport_type == transport_type,
            r.config_path == config_path,
            r.last_modified == last_modified,
            r.config_update_polling_seconds == config_update_polling_seconds,
    {
        LifecycleManager {
            algorithm,
            transport_type,
            max_traj_length: config.transport_config.max_traj_length,
            transport_addresses: construct_transport_addresses(
                &config.transport_config,
                &transport_type,
            ),
            metrics_meter_name: config.client_config.metrics_meter_name.clone(),
            metrics_endpoint: construct_metrics_otlp_endpoint(
                &config.client_config.metrics_otlp_endpoint,
            ),
            init_hyperparameters: config.client_config.init_hyperparameters.to_args(None),
            local_model_path: construct_local_model_path(
                working_directory,
                &config.transport_config.local_model_module,
            ),
            trajectory_file_output: construct_trajectory_file_output(
                working_directory,
                &config.client_config.trajectory_file_output,
            ),
            config_path,
            last_modified,
            config_update_polling_seconds,
        }
    }

    pub fn set_max_traj_length(&mut self, max_traj_length: usize)
        ensures
            *final(self) == (LifecycleManager { max_traj_length, ..*old(self) }),
    {
        self.max_traj_length = max_traj_length;
    }

    pub fn set_transport_addresses(
        &mut self,
        transport_params: &TransportConfigParams,
        transport_type: &TransportType,
    )
        ensures
            addresses_of(*transport_params, *transport_type, final(self).transport_addresses),
            *final(self) == (LifecycleManager {
                transport_addresses: final(self).transport_addresses,
                ..*old(self)
            }),
    {
        self.transport_addresses = construct_transport_addresses(transport_params, transport_type);
    }

    pub fn set_metrics_args(
        &mut self,
        metrics_meter_name: &str,
        metrics_otlp_endpoint: &OtlpEndpointParams,
    )
        ensures
            final(self).metrics_meter_name@ == metrics_meter_name@,
            final(self).metrics_endpoint@ == endpoint_chars(*metrics_otlp_endpoint),
            *final(self) == (LifecycleManager {
                metrics_meter_name: final(self).metrics_meter_name,
                metrics_endpoint: final(self).metrics_endpoint,
                ..*old(self)
            }),
    {
        self.metrics_meter_name = metrics_meter_name.to_owned();
        self.metrics_endpoint = construct_metrics_otlp_endpoint(metrics_otlp_endpoint);
    }

    /// Takes over the arguments of the algorithm that the runtime was started for.
    pub fn set_init_hyperparameters(&mut self, init_hyperparameters: &HyperparameterConfig)
        requires
            init_hyperparameters.wf(),
        ensures
            final(self).init_hyperparameters.wf(),
            final(self).init_hyperparameters@ == arguments_of(
                *init_hyperparameters,
                Some(old(self).algorithm@),
            ),
            *final(self) == (LifecycleManager {
                init_hyperparameters: final(self).init_hyperparameters,
                ..*old(self)
            }),
    {
        self.init_hyperparameters = init_hyperparameters.to_args(Some(&self.algorithm));
    }

    pub fn set_local_model_path(
        &mut self,
        working_directory: &str,
        local_model_module: &LocalModelModuleParams,
    )
        ensures
            final(self).local_model_path@ == local_model_place(
                working_directory@,
                *local_model_module,
            ),
            *final(self) == (LifecycleManager {
                local_model_path: final(self).local_model_path,
                ..*old(self)
            }),
    {
        self.local_model_path = construct_local_model_path(working_directory, local_model_module);
    }

    pub fn set_trajectory_file_path(
        &mut self,
        working_directory: &str,
        trajectory_file_output: &LocalTrajectoryFileParams,
    )
        ensures
            is_output_below(
                working_directory@,
                *trajectory_file_output,
                final(self).trajectory_file_output,
            ),
            *final(self) == (LifecycleManager {
                trajectory_file_output: final(self).trajectory_file_output,
                ..*old(self)
            }),
    {
        self.trajectory_file_output = construct_trajectory_file_output(
            working_directory,
            trajectory_file_output,
        );
    }

    /// Takes over a configuration that was read anew. Of the hyperparameters only those of the
    /// algorithm that the runtime was started for are kept.
    pub fn handle_config_change(&mut self, new_config: &ClientConfigLoader, working_directory: &str)
        requires
            new_config.client_config.init_hyperparameters.wf(),
        ensures
            final(self).reflects(
                *new_config,
                Some(old(self).algorithm@),
                working_directory@,
            ),
            final(self).algorithm == old(self).algorithm,
            final(self).transport_type == old(self).transport_type,
            final(self).config_path == old(self).config_path,
            final(self).last_modified == old(self).last_modified,
            final(self).config_update_polling_seconds == old(self).config_update_polling_seconds,
    {
        let transport_type = self.transport_type;
        self.set_max_traj_length(new_config.transport_config.max_traj_length);
        self.set_transport_addresses(&new_config.transport_config, &transport_type);
        self.set_local_model_path(
            working_directory,
            &new_config.transport_config.local_model_module,
        );
        self.set_trajectory_file_path(
            working_directory,
            &new_config.client_config.trajectory_file_output,
        );
        self.set_init_hyperparameters(&new_config.client_config.init_hyperparameters);
        self.set_metrics_args(
            new_config.client_config.metrics_meter_name.as_str(),
            &new_config.client_config.metrics_otlp_endpoint,
        );
    }

    /// Decides what follows an event while the configuration is watched every `interval` seconds. A
    /// file that is newer than before is read anew; an interrupt or a request ends the watch.
    pub fn watch_step(&mut self, interval: u64, event: WatchEvent) -> (r: WatchAction)
        ensures
            ({
                let newer = event matches WatchEvent::Tick { modified: Some(m) } && m > old(
                    self,
                ).last_modified;
                &&& *final(self) == (LifecycleManager {
                    last_modified: if newer {
                        event->modified->0
                    } else {
                        old(self).last_modified
                    },
                    ..*old(self)
                })
                &&& r == (match event {
                    WatchEvent::Tick { .. } => if newer {
                        WatchAction::Reload {
                            interval: if old(self).config_update_polling_seconds != interval {
                                Some(old(self).config_update_polling_seconds)
                            } else {
                                None
                            },
                        }
                    } else {
                        WatchAction::Wait
                    },
                    _ => WatchAction::SignalShutdownAndStop,
                })
            }),
    {
        match event {
            WatchEvent::Interrupted => WatchAction::SignalShutdownAndStop,
            WatchEvent::ShutdownRequested => WatchAction::SignalShutdownAndStop,
            WatchEvent::Tick { modified } => match modified {
                Some(m) => {
                    if m > self.last_modified {
                        self.last_modified = m;
                        WatchAction::Reload {
                            interval: if self.config_update_polling_seconds != interval {
                                Some(self.config_update_polling_seconds)
                            } else {
                                None
                            },
                        }
                    } else {
                        WatchAction::Wait
                    }
                },
                None => WatchAction::Wait,
            },
        }
    }

    pub fn get_config_path(&self) -> (r: &String)
        ensures
            *r == self.config_path,
    {
        &self.config_path
    }

    pub fn get_max_traj_length(&self) -> (r: usize)
        ensures
            r == self.max_traj_length,
    {
        self.max_traj_length
    }

    pub fn get_transport_addresses(&self) -> (r: &SharedTransportAddresses)
        ensures
            *r == self.transport_addresses,
    {
        &self.transport_addresses
    }

    pub fn get_metrics_args(&self) -> (r: (&String, &String))
        ensures
            *r.0 == self.metrics_meter_name,
            *r.1 == self.metrics_endpoint,
    {
        (&self.metrics_meter_name, &self.metrics_endpoint)
    }

    pub fn get_local_model_path(&self) -> (r: &FilePath)
        ensures
            *r == self.local_model_path,
    {
        &self.local_model_path
    }

    pub fn get_trajectory_file_output(&self) -> (r: &LocalTrajectoryFileParams)
        ensures
            *r == self.trajectory_file_output,
    {
        &self.trajectory_file_output
    }

    pub fn get_init_hyperparameters(&self) -> (r: &HyperparameterTable)
        ensures
            *r == self.init_hyperparameters,
    {
        &self.init_hyperparameters
    }
}

/// An address is one to connect to: the scheme that its transport speaks, then the host and the
/// port that the configuration gives for just that server.
pub proof fn law_addresses_lead_to_their_servers(
    c: TransportConfigParams,
    t: TransportType,
    r: SharedTransportAddresses,
)
    requires
        addresses_of(c, t, r),
    ensures
        t == TransportType::NATS ==> {
            let inference = c.nats_addresses.inference_server_address;
            let training = c.nats_addresses.training_server_address;
            &&& r.nats_inference_address@ == "nats://"@ + inference.host@ + ":"@ + inference.port@
            &&& r.nats_training_address@ == "nats://"@ + training.host@ + ":"@ + training.port@
        },
        t == TransportType::ZMQ ==> {
            let inference = c.zmq_addresses.inference_addresses;
            let training = c.zmq_addresses.training_addresses;
            let to = r.zmq_training_addresses;
            &&& r.zmq_inference_addresses.inference_server_address@ == "tcp://"@
                + inference.inference_server_address.host@ + ":"@
                + inference.inference_server_address.port@
            &&& r.zmq_inference_addresses.inference_scaling_server_address@ == "tcp://"@
                + inference.inference_scaling_server_address.host@ + ":"@
                + inference.inference_scaling_server_address.port@
            &&& to.agent_listener_address@ == "tcp://"@ + training.agent_listener_address.host@
                + ":"@ + training.agent_listener_address.port@
            &&& to.model_server_address@ == "tcp://"@ + training.model_server_address.host@ + ":"@
                + training.model_server_address.port@
            &&& to.trajectory_server_address@ == "tcp://"@ + training.trajectory_server_address.host@
                + ":"@ + training.trajectory_server_address.port@
            &&& to.training_scaling_server_address@ == "tcp://"@
                + training.training_scaling_server_address.host@ + ":"@
                + training.training_scaling_server_address.port@
        },
{
}

/// Dots before a format are dropped, all of them and nothing else: what is left does not start with
/// a dot, and what was dropped is dots.
pub proof fn law_only_leading_dots_are_dropped(s: Seq<char>)
    ensures
        ({
            let kept = without_leading_dots(s);
            &&& kept.len() <= s.len()
            &&& kept.len() > 0 ==> kept[0] != '.'
            &&& kept == s.skip(s.len() - kept.len())
            &&& forall|i: int| 0 <= i < s.len() - kept.len() ==> #[trigger] s[i] == '.'
        }),
    decreases s.len(),
{
    if s.len() > 0 && s[0] == '.' {
        let rest = s.skip(1);
        law_only_leading_dots_are_dropped(rest);
        let kept = without_leading_dots(rest);
        assert(s.skip(s.len() - kept.len()) =~= rest.skip(rest.len() - kept.len()));
        assert forall|i: int| 0 <= i < s.len() - kept.len() implies #[trigger] s[i] == '.' by {
            if i > 0 {
                assert(rest[i - 1] == '.');
            }
        }
    } else {
        assert(s.skip(0) =~= s);
    }
}

/// The local model lies where its parameters say, and where they say nothing in `model_module`, as
/// `client_model`, with the format `pt`.
pub proof fn law_local_models_lie_where_they_are_said_to(
    working_directory: Seq<char>,
    module: LocalModelModuleParams,
)
    ensures
        local_model_place(working_directory, module) matches PathView::Joined(folder, file)
            && *folder == PathView::Joined(
            Box::new(PathView::Plain(working_directory)),
            Box::new(
                PathView::Plain(
                    if module.directory@.len() > 0 {
                        module.directory@
                    } else {
                        "model_module"@
                    },
                ),
            ),
        ) && (*file matches PathView::Plain(name) && {
            &&& module.model_name@.len() > 0 && module.format@.len() > 0 ==> name
                == module.model_name@ + "."@ + without_leading_dots(module.format@)
            &&& module.model_name@.len() == 0 && module.format@.len() > 0 ==> name
                == "client_model"@ + "."@ + without_leading_dots(module.format@)
            &&& module.model_name@.len() > 0 && module.format@.len() == 0 ==> name
                == module.model_name@ + "."@ + "pt"@
            &&& module.model_name@.len() == 0 && module.format@.len() == 0 ==> name
                == "client_model"@ + "."@ + "pt"@
        }),
{
}

/// Trajectory files go below the working directory, into the directory given, in the format given.
pub proof fn law_trajectories_go_below_the_working_directory(
    working_directory: Seq<char>,
    given: LocalTrajectoryFileParams,
    r: LocalTrajectoryFileParams,
)
    requires
        is_output_below(working_directory, given, r),
    ensures
        r.file_type == given.file_type,
        r.directory@ == PathView::Joined(
            Box::new(PathView::Plain(working_directory)),
            Box::new(given.directory@),
        ),
{
}

/// What a runtime shares is what the configuration says, each thing in its place.
pub proof fn law_reloads_take_everything_over(
    m: LifecycleManager,
    c: ClientConfigLoader,
    asked: Option<AlgorithmView>,
    working_directory: Seq<char>,
)
    requires
        m.reflects(c, asked, working_directory),
    ensures
        m.max_traj_length == c.transport_config.max_traj_length,
        m.metrics_meter_name@ == c.client_config.metrics_meter_name@,
        m.metrics_endpoint@ == c.client_config.metrics_otlp_endpoint.prefix@
            + c.client_config.metrics_otlp_endpoint.host@ + ":"@
            + c.client_config.metrics_otlp_endpoint.port@,
        m.init_hyperparameters@ == arguments_of(c.client_config.init_hyperparameters, asked),
        m.local_model_path@ == local_model_place(
            working_directory,
            c.transport_config.local_model_module,
        ),
        m.trajectory_file_output.file_type == c.client_config.trajectory_file_output.file_type,
        m.trajectory_file_output.directory@ == PathView::Joined(
            Box::new(PathView::Plain(working_directory)),
            Box::new(c.client_config.trajectory_file_output.directory@),
        ),
        addresses_of(c.transport_config, m.transport_type, m.transport_addresses),
{
}

} // verus!
