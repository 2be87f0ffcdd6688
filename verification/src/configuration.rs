//! The configurations of clients and training servers: reading, building and asking.

use crate::arguments::{parse_args, ArgMap, HyperparameterArgs};
use crate::hyperparameters::{
    algorithm_named, arguments_of, configure, configured, same_config, Algorithm, AlgorithmView,
    HyperparameterConfig, HyperparameterTable,
};
use crate::modes::{LocalTrajectoryFileParams, LocalTrajectoryFileType};
use crate::paths::PathView;
use crate::numbers::Real;
use crate::text::{in_lower_case, in_upper_case, is_ascii_text, split_on, split_pieces, texts, to_upper};
use crate::transport_config::{
    built_by_default, TransportConfigBuildParams, TransportConfigBuilder, TransportConfigParams,
};
use vstd::prelude::*;

verus! {

/// Where metrics are sent.
#[derive(Debug)]
pub struct OtlpEndpointParams {
    pub prefix: String,
    pub host: String,
    pub port: String,
}

impl OtlpEndpointParams {
    /// Whether the endpoint consists of these parts.
    pub open spec fn reads(self, prefix: Seq<char>, host: Seq<char>, port: Seq<char>) -> bool {
        self.prefix@ == prefix && self.host@ == host && self.port@ == port
    }

    fn local() -> (r: Self)
        ensures
            r.reads("http://"@, "127.0.0.1"@, "4317"@),
    {
        OtlpEndpointParams {
            prefix: "http://".to_owned(),
            host: "127.0.0.1".to_owned(),
            port: "4317".to_owned(),
        }
    }
}

impl Clone for OtlpEndpointParams {
    fn clone(&self) -> (r: Self)
        ensures
            r == *self,
    {
        OtlpEndpointParams {
            prefix: self.prefix.clone(),
            host: self.host.clone(),
            port: self.port.clone(),
        }
    }
}

/// What a training server shows of its progress.
#[derive(Debug)]
pub struct TensorboardParams {
    pub launch_tb_on_startup: bool,
    pub scalar_tags: Vec<String>,
    pub global_step_tag: String,
}

/// A configuration that may hold tensorboard parameters.
#[derive(Debug)]
pub struct TensorboardConfig {
    pub training_tensorboard: Option<TensorboardParams>,
}

impl TensorboardParams {
    /// Whether the parameters hold these values.
    pub open spec fn reads(self, launch: bool, tags: Seq<Seq<char>>, step: Seq<char>) -> bool {
        self.launch_tb_on_startup == launch && texts(self.scalar_tags@) == tags && self.global_step_tag@
            == step
    }

    fn quiet() -> (r: Self)
        ensures
            r.reads(false, seq!["AverageEpRet"@, "StdEpRet"@], "Epoch"@),
    {
        let mut tags: Vec<String> = Vec::new();
        tags.push("AverageEpRet".to_owned());
        tags.push("StdEpRet".to_owned());
        proof {
            assert(texts(tags@) =~= seq!["AverageEpRet"@, "StdEpRet"@]);
        }
        TensorboardParams {
            launch_tb_on_startup: false,
            scalar_tags: tags,
            global_step_tag: "Epoch".to_owned(),
        }
    }
}

impl Clone for TensorboardParams {
    fn clone(&self) -> (r: Self)
        ensures
            r.reads(
                self.launch_tb_on_startup,
                texts(self.scalar_tags@),
                self.global_step_tag@,
            ),
    {
        let mut tags: Vec<String> = Vec::new();
        let mut i: usize = 0;
        while i < self.scalar_tags.len()
            invariant
                i <= self.scalar_tags@.len(),
                tags@.len() == i,
                forall|k: int| 0 <= k < i ==> tags@[k] == self.scalar_tags@[k],
            decreases self.scalar_tags@.len() - i,
        {
            tags.push(self.scalar_tags[i].clone());
            i = i + 1;
        }
        proof {
            assert(tags@ =~= self.scalar_tags@);
        }
        TensorboardParams {
            launch_tb_on_startup: self.launch_tb_on_startup,
            scalar_tags: tags,
            global_step_tag: self.global_step_tag.clone(),
        }
    }
}

/// Reads the tags that one text lists, with semicolons between them.
pub fn vec_scalar_tags(listed: &str) -> (r: Vec<String>)
    ensures
        texts(r@) == split_pieces(listed@, ';'),
{
    split_on(listed, ';')
}

/// The client's own part of a configuration.
#[derive(Debug)]
pub struct ClientConfigParams {
    pub algorithm_name: String,
    pub config_update_polling_seconds: Real,
    pub init_hyperparameters: HyperparameterConfig,
    pub trajectory_file_output: LocalTrajectoryFileParams,
    pub metrics_meter_name: String,
    pub metrics_otlp_endpoint: OtlpEndpointParams,
}

/// What a configuration file of a client holds.
#[derive(Debug)]
pub struct ClientConfigFile {
    pub client_config: ClientConfigParams,
    pub transport_config: TransportConfigParams,
}

/// A client's configuration and where it was read from.
#[derive(Debug)]
pub struct ClientConfigLoader {
    pub config_path: String,
    pub client_config: ClientConfigParams,
    pub transport_config: TransportConfigParams,
}

/// The client's own part when nothing was set.
pub open spec fn default_client(c: ClientConfigParams) -> bool {
    &&& c.algorithm_name@ == "REINFORCE"@
    &&& c.config_update_polling_seconds.text@ == "10"@
    &&& c.init_hyperparameters.wf()
    &&& c.init_hyperparameters.ddpg is None
    &&& c.init_hyperparameters.ppo is None
    &&& c.init_hyperparameters.td3 is None
    &&& c.init_hyperparameters.custom is None
    &&& c.init_hyperparameters.reinforce is Some
    &&& c.init_hyperparameters.reinforce->0.set_by(Map::empty(), Map::empty())
    &&& c.trajectory_file_output.reads(
        PathView::Plain("experiment_data"@),
        LocalTrajectoryFileType::Csv,
    )
    &&& c.metrics_meter_name@ == "relayrl-client"@
    &&& c.metrics_otlp_endpoint.reads("http://"@, "127.0.0.1"@, "4317"@)
}

impl ClientConfigParams {
    fn fallback() -> (r: Self)
        ensures
            default_client(r),
    {
        ClientConfigParams {
            algorithm_name: "REINFORCE".to_owned(),
            config_update_polling_seconds: Real::of("10"),
            init_hyperparameters: HyperparameterConfig::default(),
            trajectory_file_output: LocalTrajectoryFileParams::default(),
            metrics_meter_name: "relayrl-client".to_owned(),
            metrics_otlp_endpoint: OtlpEndpointParams::local(),
        }
    }
}

impl ClientConfigLoader {
    /// The configuration of a file that holds what was read from it.
    pub fn from_file(config_path: String, file: ClientConfigFile) -> (r: Self)
        ensures
            r.config_path == config_path,
            r.client_config == file.client_config,
            r.transport_config == file.transport_config,
    {
        ClientConfigLoader {
            config_path,
            client_config: file.client_config,
            transport_config: file.transport_config,
        }
    }

    /// The configuration at a path: what the file holds, or the defaults if it could not be
    /// understood.
    pub fn load_config(config_path: &str, parsed: Option<ClientConfigFile>) -> (r: Self)
        ensures
            r.config_path@ == config_path@,
            match parsed {
                Some(file) => r.client_config == file.client_config && r.transport_config
                    == file.transport_config,
                None => default_client(r.client_config) && built_by_default(r.transport_config),
            },
    {
        match parsed {
            Some(file) => ClientConfigLoader::from_file(config_path.to_owned(), file),
            None => ClientConfigLoader {
                config_path: config_path.to_owned(),
                client_config: ClientConfigParams::fallback(),
                transport_config: <TransportConfigBuilder as TransportConfigBuildParams>::build_default(),
            },
        }
    }

    /// The configuration at a path, with another algorithm if one is named.
    pub fn new_config(
        algorithm_name: Option<String>,
        config_path: String,
        parsed: Option<ClientConfigFile>,
    ) -> (r: Self)
        ensures
            r.config_path@ == config_path@,
            algorithm_name matches Some(name) ==> r.client_config.algorithm_name == name,
            match parsed {
                Some(file) => {
                    &&& r.transport_config == file.transport_config
                    &&& r.client_config == (ClientConfigParams {
                        algorithm_name: r.client_config.algorithm_name,
                        ..file.client_config
                    })
                    &&& algorithm_name is None ==> r.client_config == file.client_config
                },
                None => {
                    &&& built_by_default(r.transport_config)
                    &&& exists|c: ClientConfigParams| #[trigger]
                        default_client(c) && r.client_config == (ClientConfigParams {
                            algorithm_name: r.client_config.algorithm_name,
                            ..c
                        }) && (algorithm_name is None ==> r.client_config == c)
                },
            },
    {
        let loaded = ClientConfigLoader::load_config(config_path.as_str(), parsed);
        let client_config = loaded.client_config;
        let ghost read = client_config;
        let name = match algorithm_name {
            Some(name) => name,
            None => client_config.algorithm_name,
        };
        proof {
            if parsed is None {
                assert(default_client(read));
            }
        }
        ClientConfigLoader {
            config_path,
            client_config: ClientConfigParams {
                algorithm_name: name,
                config_update_polling_seconds: client_config.config_update_polling_seconds,
                init_hyperparameters: client_config.init_hyperparameters,
                trajectory_file_output: client_config.trajectory_file_output,
                metrics_meter_name: client_config.metrics_meter_name,
                metrics_otlp_endpoint: client_config.metrics_otlp_endpoint,
            },
            transport_config: loaded.transport_config,
        }
    }

    pub fn get_algorithm_name(&self) -> (r: &str)
        ensures
            r@ == self.client_config.algorithm_name@,
    {
        self.client_config.algorithm_name.as_str()
    }

    pub fn get_config_path(&self) -> (r: &String)
        ensures
            *r == self.config_path,
    {
        &self.config_path
    }

    pub fn get_init_hyperparameters(&self) -> (r: &HyperparameterConfig)
        ensures
            *r == self.client_config.init_hyperparameters,
    {
        &self.client_config.init_hyperparameters
    }

    /// The arguments of the algorithms asked for.
    pub fn get_init_hyperparameter_args(&self, algorithm: Option<&Algorithm>) -> (r: HyperparameterTable)
        requires
            self.client_config.init_hyperparameters.wf(),
        ensures
            r.wf(),
            r@ == arguments_of(
                self.client_config.init_hyperparameters,
                match algorithm {
                    Some(a) => Some(a@),
                    None => None,
                },
            ),
    {
        self.client_config.init_hyperparameters.to_args(algorithm)
    }

    pub fn get_trajectory_file_output(&self) -> (r: &LocalTrajectoryFileParams)
        ensures
            *r == self.client_config.trajectory_file_output,
    {
        &self.client_config.trajectory_file_output
    }

    pub fn get_metrics_meter_name(&self) -> (r: &str)
        ensures
            r@ == self.client_config.metrics_meter_name@,
    {
        self.client_config.metrics_meter_name.as_str()
    }

    pub fn get_metrics_otlp_endpoint(&self) -> (r: &OtlpEndpointParams)
        ensures
            *r == self.client_config.metrics_otlp_endpoint,
    {
        &self.client_config.metrics_otlp_endpoint
    }

    pub fn get_transport_config(&self) -> (r: &TransportConfigParams)
        ensures
            *r == self.transport_config,
    {
        &self.transport_config
    }
}

/// Collects a client's configuration piece by piece.
pub trait ClientConfigBuildParams: Sized {
    fn set_algorithm_name(&mut self, algorithm_name: &str) -> &mut Self;

    fn set_init_hyperparameters(
        &mut self,
        init_hyperparameters: HyperparameterConfig,
    ) -> &mut Self;

    fn set_metrics_name(&mut self, metrics_name: &str) -> &mut Self;

    fn set_otlp_endpoint(&mut self, otlp_endpoint: OtlpEndpointParams) -> &mut Self;

    fn set_trajectory_file_output(
        &mut self,
        trajectory_file_output: LocalTrajectoryFileParams,
    ) -> &mut Self;

    fn set_transport_config(&mut self, transport_config: TransportConfigParams) -> &mut Self;

    fn build(&self) -> ClientConfigLoader;

    fn build_default() -> ClientConfigLoader;
}

/// The pieces of a client's configuration that have been set so far.
pub struct ClientConfigBuilder {
    pub algorithm_name: Option<String>,
    pub config_update_polling_seconds: Option<Real>,
    pub init_hyperparameters: Option<HyperparameterConfig>,
    pub transport_config: Option<TransportConfigParams>,
    pub trajectory_file_output: Option<LocalTrajectoryFileParams>,
    pub metrics_name: Option<String>,
    pub otlp_endpoint: Option<OtlpEndpointParams>,
}

/// What building makes of the pieces: each that was set, and the default in place of each other.
pub open spec fn client_built(b: ClientConfigBuilder, r: ClientConfigLoader) -> bool {
    &&& r.config_path@ == "client_config.json"@
    &&& match b.transport_config {
        Some(t) => r.transport_config == t,
        None => built_by_default(r.transport_config),
    }
    &&& exists|d: ClientConfigParams| #[trigger]
        default_client(d) && {
            let c = r.client_config;
            &&& c.algorithm_name == (match b.algorithm_name {
                Some(name) => name,
                None => d.algorithm_name,
            })
            &&& c.config_update_polling_seconds == (match b.config_update_polling_seconds {
                Some(seconds) => seconds,
                None => d.config_update_polling_seconds,
            })
            &&& same_config(
                c.init_hyperparameters,
                match b.init_hyperparameters {
                    Some(hp) => hp,
                    None => d.init_hyperparameters,
                },
            )
            &&& c.trajectory_file_output == (match b.trajectory_file_output {
                Some(output) => output,
                None => d.trajectory_file_output,
            })
            &&& c.metrics_meter_name == (match b.metrics_name {
                Some(name) => name,
                None => d.metrics_meter_name,
            })
            &&& c.metrics_otlp_endpoint == (match b.otlp_endpoint {
                Some(endpoint) => endpoint,
                None => d.metrics_otlp_endpoint,
            })
        }
}

impl ClientConfigBuildParams for ClientConfigBuilder {
    fn set_algorithm_name(&mut self, algorithm_name: &str) -> (r: &mut Self)
        ensures
            r.algorithm_name is Some,
            r.algorithm_name->0@ == algorithm_name@,
            *r == (ClientConfigBuilder { algorithm_name: r.algorithm_name, ..*old(self) }),
            *final(self) == *final(r),
    {
        self.algorithm_name = Some(algorithm_name.to_owned());
        self
    }

    fn set_init_hyperparameters(
        &mut self,
        init_hyperparameters: HyperparameterConfig,
    ) -> (r: &mut Self)
        ensures
            *r == (ClientConfigBuilder {
                init_hyperparameters: Some(init_hyperparameters),
                ..*old(self)
            }),
            *final(self) == *final(r),
    {
        self.init_hyperparameters = Some(init_hyperparameters);
        self
    }

    fn set_metrics_name(&mut self, metrics_name: &str) -> (r: &mut Self)
        ensures
            r.metrics_name is Some,
            r.metrics_name->0@ == metrics_name@,
            *r == (ClientConfigBuilder { metrics_name: r.metrics_name, ..*old(self) }),
            *final(self) == *final(r),
    {
        self.metrics_name = Some(metrics_name.to_owned());
        self
    }

    fn set_otlp_endpoint(&mut self, otlp_endpoint: OtlpEndpointParams) -> (r: &mut Self)
        ensures
            *r == (ClientConfigBuilder { otlp_endpoint: Some(otlp_endpoint), ..*old(self) }),
            *final(self) == *final(r),
    {
        self.otlp_endpoint = Some(otlp_endpoint);
        self
    }

    fn set_trajectory_file_output(
        &mut self,
        trajectory_file_output: LocalTrajectoryFileParams,
    ) -> (r: &mut Self)
        ensures
            *r == (ClientConfigBuilder {
                trajectory_file_output: Some(trajectory_file_output),
                ..*old(self)
            }),
            *final(self) == *final(r),
    {
        self.trajectory_file_output = Some(trajectory_file_output);
        self
    }

    fn set_transport_config(&mut self, transport_config: TransportConfigParams) -> (r: &mut Self)
        ensures
            *r == (ClientConfigBuilder { transport_config: Some(transport_config), ..*old(self) }),
            *final(self) == *final(r),
    {
        self.transport_config = Some(transport_config);
        self
    }

    fn build(&self) -> (r: ClientConfigLoader)
        ensures
            client_built(*self, r),
            (self.init_hyperparameters matches Some(hp) ==> hp.wf())
                ==> r.client_config.init_hyperparameters.wf(),
    {
        let d = ClientConfigParams::fallback();
        let ghost defaults = d;
        let algorithm_name = match &self.algorithm_name {
            Some(name) => name.clone(),
            None => d.algorithm_name,
        };
        let config_update_polling_seconds = match &self.config_update_polling_seconds {
            Some(seconds) => seconds.clone(),
            None => d.config_update_polling_seconds,
        };
        let init_hyperparameters = match &self.init_hyperparameters {
            Some(hp) => hp.clone(),
            None => d.init_hyperparameters,
        };
        let trajectory_file_output = match &self.trajectory_file_output {
            Some(output) => output.clone(),
            None => d.trajectory_file_output,
        };
        let metrics_meter_name = match &self.metrics_name {
            Some(name) => name.clone(),
            None => d.metrics_meter_name,
        };
        let metrics_otlp_endpoint = match &self.otlp_endpoint {
            Some(endpoint) => endpoint.clone(),
            None => d.metrics_otlp_endpoint,
        };
        let transport_config = match &self.transport_config {
            Some(transport) => transport.clone(),
            None => <TransportConfigBuilder as TransportConfigBuildParams>::build_default(),
        };
        proof {
            assert(default_client(defaults));
        }
        ClientConfigLoader {
            config_path: "client_config.json".to_owned(),
            client_config: ClientConfigParams {
                algorithm_name,
                config_update_polling_seconds,
                init_hyperparameters,
                trajectory_file_output,
                metrics_meter_name,
                metrics_otlp_endpoint,
            },
            transport_config,
        }
    }

    fn build_default() -> (r: ClientConfigLoader)
        ensures
            r.config_path@ == "client_config.json"@,
            default_client(r.client_config),
            built_by_default(r.transport_config),
    {
        ClientConfigLoader {
            config_path: "client_config.json".to_owned(),
            client_config: ClientConfigParams::fallback(),
            transport_config: <TransportConfigBuilder as TransportConfigBuildParams>::build_default(),
        }
    }
}

/// Building from nothing gives the default configuration.
pub proof fn law_client_built_from_nothing_is_default(b: ClientConfigBuilder, r: ClientConfigLoader)
    requires
        client_built(b, r),
        r.client_config.init_hyperparameters.wf(),
        b.algorithm_name is None,
        b.config_update_polling_seconds is None,
        b.init_hyperparameters is None,
        b.transport_config is None,
        b.trajectory_file_output is None,
        b.metrics_name is None,
        b.otlp_endpoint is None,
    ensures
        r.config_path@ == "client_config.json"@,
        default_client(r.client_config),
        built_by_default(r.transport_config),
{
}

/// Every piece that was set stands unchanged in the client configuration that is built.
pub proof fn law_client_pieces_are_built(b: ClientConfigBuilder, r: ClientConfigLoader)
    requires
        client_built(b, r),
    ensures
        b.algorithm_name matches Some(name) ==> r.client_config.algorithm_name == name,
        b.config_update_polling_seconds matches Some(s)
            ==> r.client_config.config_update_polling_seconds == s,
        b.init_hyperparameters matches Some(hp) ==> same_config(
            r.client_config.init_hyperparameters,
            hp,
        ),
        b.transport_config matches Some(t) ==> r.transport_config == t,
        b.trajectory_file_output matches Some(o) ==> r.client_config.trajectory_file_output == o,
        b.metrics_name matches Some(name) ==> r.client_config.metrics_meter_name == name,
        b.otlp_endpoint matches Some(e) ==> r.client_config.metrics_otlp_endpoint == e,
{
}

/// The training server's own part of a configuration.
#[derive(Debug)]
pub struct TrainingServerConfigParams {
    pub config_update_polling_seconds: Real,
    pub default_hyperparameters: Option<HyperparameterConfig>,
    pub training_tensorboard: TensorboardParams,
}

/// What a configuration file of a training server holds.
#[derive(Debug)]
pub struct TrainingServerConfigFile {
    pub training_server_config: TrainingServerConfigParams,
    pub transport_config: TransportConfigParams,
}

/// A training server's configuration and where it was read from.
#[derive(Debug)]
pub struct TrainingServerConfigLoader {
    pub config_path: String,
    pub training_server_config: TrainingServerConfigParams,
    pub transport_config: TransportConfigParams,
}

/// The training server's own part when nothing was set.
pub open spec fn default_training_server(c: TrainingServerConfigParams) -> bool {
    &&& c.config_update_polling_seconds.text@ == "10"@
    &&& c.default_hyperparameters is None
    &&& c.training_tensorboard.reads(false, seq!["AverageEpRet"@, "StdEpRet"@], "Epoch"@)
}

impl TrainingServerConfigParams {
    fn fallback() -> (r: Self)
        ensures
            default_training_server(r),
    {
        TrainingServerConfigParams {
            config_update_polling_seconds: Real::of("10"),
            default_hyperparameters: None,
            training_tensorboard: TensorboardParams::quiet(),
        }
    }
}

impl TrainingServerConfigLoader {
    /// The configuration of a file that holds what was read from it.
    pub fn from_file(config_path: String, file: TrainingServerConfigFile) -> (r: Self)
        ensures
            r.config_path == config_path,
            r.training_server_config == file.training_server_config,
            r.transport_config == file.transport_config,
    {
        TrainingServerConfigLoader {
            config_path,
            training_server_config: file.training_server_config,
            transport_config: file.transport_config,
        }
    }

    /// The configuration at a path: what the file holds, or the defaults if it could not be
    /// understood.
    pub fn load_config(config_path: &str, parsed: Option<TrainingServerConfigFile>) -> (r: Self)
        ensures
            r.config_path@ == config_path@,
            match parsed {
                Some(file) => r.training_server_config == file.training_server_config
                    && r.transport_config == file.transport_config,
                None => default_training_server(r.training_server_config) && built_by_default(
                    r.transport_config,
                ),
            },
    {
        match parsed {
            Some(file) => TrainingServerConfigLoader::from_file(config_path.to_owned(), file),
            None => TrainingServerConfigLoader {
                config_path: config_path.to_owned(),
                training_server_config: TrainingServerConfigParams::fallback(),
                transport_config: <TransportConfigBuilder as TransportConfigBuildParams>::build_default(),
            },
        }
    }

    /// The configuration at a path.
    pub fn new_config(config_path: String, parsed: Option<TrainingServerConfigFile>) -> (r: Self)
        ensures
            r.config_path@ == config_path@,
            match parsed {
                Some(file) => r.training_server_config == file.training_server_config
                    && r.transport_config == file.transport_config,
                None => default_training_server(r.training_server_config) && built_by_default(
                    r.transport_config,
                ),
            },
    {
        TrainingServerConfigLoader::load_config(config_path.as_str(), parsed)
    }

    pub fn get_config_path(&self) -> (r: &String)
        ensures
            *r == self.config_path,
    {
        &self.config_path
    }

    pub fn get_config_update_polling_seconds(&self) -> (r: &Real)
        ensures
            *r == self.training_server_config.config_update_polling_seconds,
    {
        &self.training_server_config.config_update_polling_seconds
    }

    pub fn get_hyperparameters(&self) -> (r: &Option<HyperparameterConfig>)
        ensures
            *r == self.training_server_config.default_hyperparameters,
    {
        &self.training_server_config.default_hyperparameters
    }

    pub fn get_training_tensorboard(&self) -> (r: &TensorboardParams)
        ensures
            *r == self.training_server_config.training_tensorboard,
    {
        &self.training_server_config.training_tensorboard
    }

    pub fn get_transport_config(&self) -> (r: &TransportConfigParams)
        ensures
            *r == self.transport_config,
    {
        &self.transport_config
    }
}

/// Collects a training server's configuration piece by piece.
pub trait TrainingServerConfigBuildParams: Sized {
    fn set_config_update_polling_seconds(
        &mut self,
        config_update_polling_seconds: Real,
    ) -> &mut Self;

    fn set_hyperparameters(
        &mut self,
        algorithm_name: &str,
        hyperparameter_args: HyperparameterArgs,
        readings: &ArgMap,
    ) -> &mut Self
        requires
            hyperparameter_args.wf(),
            readings.wf(),
    ;

    fn set_training_tensorboard_params(
        &mut self,
        launch_tb_on_startup: bool,
        scalar_tags: &str,
        global_step_tag: &str,
    ) -> &mut Self;

    fn set_transport_config(&mut self, transport_config: TransportConfigParams) -> &mut Self;

    fn build(&self) -> TrainingServerConfigLoader;

    fn build_default() -> TrainingServerConfigLoader;
}

/// The pieces of a training server's configuration that have been set so far.
pub struct TrainingServerConfigBuilder {
    pub config_update_polling_seconds: Option<Real>,
    pub default_hyperparameters: Option<HyperparameterConfig>,
    pub training_tensorboard: Option<TensorboardParams>,
    pub transport_config: Option<TransportConfigParams>,
}

/// What building makes of the pieces: each that was set, and the default in place of each other.
pub open spec fn training_server_built(
    b: TrainingServerConfigBuilder,
    r: TrainingServerConfigLoader,
) -> bool {
    let c = r.training_server_config;
    &&& r.config_path@ == "training_server_config.json"@
    &&& match b.config_update_polling_seconds {
        Some(seconds) => c.config_update_polling_seconds == seconds,
        None => c.config_update_polling_seconds.text@ == "10"@,
    }
    &&& c.default_hyperparameters is Some <==> b.default_hyperparameters is Some
    &&& b.default_hyperparameters matches Some(hp) ==> same_config(c.default_hyperparameters->0, hp)
    &&& match b.training_tensorboard {
        Some(t) => c.training_tensorboard.reads(
            t.launch_tb_on_startup,
            texts(t.scalar_tags@),
            t.global_step_tag@,
        ),
        None => c.training_tensorboard.reads(
            false,
            seq!["AverageEpRet"@, "StdEpRet"@],
            "Epoch"@,
        ),
    }
    &&& match b.transport_config {
        Some(t) => r.transport_config == t,
        None => built_by_default(r.transport_config),
    }
}

/// The hyperparameters that arguments describe for the algorithm of a name in upper case.
pub fn hyperparameters_for(upper_name: &str, args: &ArgMap, readings: &ArgMap) -> (r: Option<
    HyperparameterConfig,
>)
    requires
        args.wf(),
        readings.wf(),
    ensures
        r is None <==> algorithm_named(upper_name@) == AlgorithmView::ConfigInit,
        r matches Some(c) ==> configured(algorithm_named(upper_name@), args@, readings@, c),
{
    match Algorithm::from_str(upper_name) {
        Some(algorithm) => configure(algorithm, args, readings),
        None => configure(Algorithm::REINFORCE, args, readings),
    }
}

impl TrainingServerConfigBuildParams for TrainingServerConfigBuilder {
    fn set_config_update_polling_seconds(
        &mut self,
        config_update_polling_seconds: Real,
    ) -> (r: &mut Self)
        ensures
            *r == (TrainingServerConfigBuilder {
                config_update_polling_seconds: Some(config_update_polling_seconds),
                ..*old(self)
            }),
            *final(self) == *final(r),
    {
        self.config_update_polling_seconds = Some(config_update_polling_seconds);
        self
    }

    /// Sets the hyperparameters of one algorithm, whose name may be in any case. `readings` holds,
    /// for each text that reads as a number, that number's shortest form.
    fn set_hyperparameters(
        &mut self,
        algorithm_name: &str,
        hyperparameter_args: HyperparameterArgs,
        readings: &ArgMap,
    ) -> (r: &mut Self)
        ensures
            *r == (TrainingServerConfigBuilder {
                default_hyperparameters: r.default_hyperparameters,
                ..*old(self)
            }),
            if algorithm_named(in_upper_case(algorithm_name@)) == AlgorithmView::ConfigInit {
                r.default_hyperparameters == old(self).default_hyperparameters
            } else {
                r.default_hyperparameters is Some && configured(
                    algorithm_named(in_upper_case(algorithm_name@)),
                    hyperparameter_args.by_name(),
                    readings@,
                    r.default_hyperparameters->0,
                )
            },
            *final(self) == *final(r),
    {
        let args = parse_args(&Some(hyperparameter_args));
        let upper = to_upper(algorithm_name);
        match hyperparameters_for(upper.as_str(), &args, readings) {
            Some(config) => {
                self.default_hyperparameters = Some(config);
            },
            None => {},
        }
        self
    }

    fn set_training_tensorboard_params(
        &mut self,
        launch_tb_on_startup: bool,
        scalar_tags: &str,
        global_step_tag: &str,
    ) -> (r: &mut Self)
        ensures
            r.training_tensorboard is Some,
            r.training_tensorboard->0.reads(
                launch_tb_on_startup,
                split_pieces(scalar_tags@, ';'),
                global_step_tag@,
            ),
            *r == (TrainingServerConfigBuilder {
                training_tensorboard: r.training_tensorboard,
                ..*old(self)
            }),
            *final(self) == *final(r),
    {
        self.training_tensorboard = Some(
            TensorboardParams {
                launch_tb_on_startup,
                scalar_tags: vec_scalar_tags(scalar_tags),
                global_step_tag: global_step_tag.to_owned(),
            },
        );
        self
    }

    fn set_transport_config(&mut self, transport_config: TransportConfigParams) -> (r: &mut Self)
        ensures
            *r == (TrainingServerConfigBuilder {
                transport_config: Some(transport_config),
                ..*old(self)
            }),
            *final(self) == *final(r),
    {
        self.transport_config = Some(transport_config);
        self
    }

    fn build(&self) -> (r: TrainingServerConfigLoader)
        ensures
            training_server_built(*self, r),
            (self.default_hyperparameters matches Some(hp) ==> hp.wf())
                ==> (r.training_server_config.default_hyperparameters matches Some(hp) ==> hp.wf()),
    {
        TrainingServerConfigLoader {
            config_path: "training_server_config.json".to_owned(),
            training_server_config: TrainingServerConfigParams {
                config_update_polling_seconds: match &self.config_update_polling_seconds {
                    Some(seconds) => seconds.clone(),
                    None => Real::of("10"),
                },
                default_hyperparameters: match &self.default_hyperparameters {
                    Some(hp) => Some(hp.clone()),
                    None => None,
                },
                training_tensorboard: match &self.training_tensorboard {
                    Some(params) => params.clone(),
                    None => TensorboardParams::quiet(),
                },
            },
            transport_config: match &self.transport_config {
                Some(transport) => transport.clone(),
                None => <TransportConfigBuilder as TransportConfigBuildParams>::build_default(),
            },
        }
    }

    fn build_default() -> (r: TrainingServerConfigLoader)
        ensures
            r.config_path@ == "training_server_config.json"@,
            default_training_server(r.training_server_config),
            built_by_default(r.transport_config),
    {
        TrainingServerConfigLoader {
            config_path: "training_server_config.json".to_owned(),
            training_server_config: TrainingServerConfigParams::fallback(),
            transport_config: <TransportConfigBuilder as TransportConfigBuildParams>::build_default(),
        }
    }
}

/// Building from nothing gives the default configuration.
pub proof fn law_training_server_built_from_nothing_is_default(
    b: TrainingServerConfigBuilder,
    r: TrainingServerConfigLoader,
)
    requires
        training_server_built(b, r),
        b.config_update_polling_seconds is None,
        b.default_hyperparameters is None,
        b.training_tensorboard is None,
        b.transport_config is None,
    ensures
        r.config_path@ == "training_server_config.json"@,
        default_training_server(r.training_server_config),
        built_by_default(r.transport_config),
{
}

/// Every piece that was set stands unchanged in the training server configuration that is built.
pub proof fn law_training_server_pieces_are_built(
    b: TrainingServerConfigBuilder,
    r: TrainingServerConfigLoader,
)
    requires
        training_server_built(b, r),
    ensures
        b.config_update_polling_seconds matches Some(s)
            ==> r.training_server_config.config_update_polling_seconds == s,
        b.default_hyperparameters matches Some(hp) ==> (
        r.training_server_config.default_hyperparameters matches Some(built) && same_config(
            built,
            hp,
        )),
        b.training_tensorboard matches Some(t) ==> r.training_server_config.training_tensorboard.reads(
            t.launch_tb_on_startup,
            texts(t.scalar_tags@),
            t.global_step_tag@,
        ),
        b.transport_config matches Some(t) ==> r.transport_config == t,
{
}

/// Which algorithm a name of ASCII characters stands for does not depend on its case.
pub proof fn law_case_of_name_is_ignored(name: Seq<char>)
    requires
        is_ascii_text(name),
    ensures
        algorithm_named(in_upper_case(in_lower_case(name))) == algorithm_named(in_upper_case(name)),
{
    let lower = in_lower_case(name);
    assert(is_ascii_text(lower)) by {
        assert forall|i: int| 0 <= i < lower.len() implies (#[trigger] lower[i]) as u32 <= 0x7f by {
            assert(name[i] as u32 <= 0x7f);
        }
    }
    assert(in_upper_case(lower) =~= in_upper_case(name));
}

/// A client that nothing was set for learns by REINFORCE, looks at its configuration every ten
/// seconds, writes its trajectories as CSV below `experiment_data`, and tells its metrics to the
/// local host.
pub proof fn law_default_clients_learn_by_reinforce(c: ClientConfigParams)
    requires
        default_client(c),
    ensures
        c.algorithm_name@ == "REINFORCE"@,
        algorithm_named(c.algorithm_name@) is REINFORCE,
        c.config_update_polling_seconds.text@ == "10"@,
        c.init_hyperparameters.reinforce is Some,
        c.init_hyperparameters.ddpg is None && c.init_hyperparameters.ppo is None
            && c.init_hyperparameters.td3 is None && c.init_hyperparameters.custom is None,
        c.init_hyperparameters.reinforce->0.discrete,
        !c.init_hyperparameters.reinforce->0.with_vf_baseline,
        c.init_hyperparameters.reinforce->0.seed == 1,
        c.init_hyperparameters.reinforce->0.traj_per_epoch == 8,
        c.init_hyperparameters.reinforce->0.gamma.text@ == "0.98"@,
        c.init_hyperparameters.reinforce->0.lam.text@ == "0.97"@,
        c.init_hyperparameters.reinforce->0.pi_lr.text@ == "0.0003"@,
        c.init_hyperparameters.reinforce->0.vf_lr.text@ == "0.001"@,
        c.init_hyperparameters.reinforce->0.train_vf_iters == 80,
        c.trajectory_file_output.directory@ == PathView::Plain("experiment_data"@),
        c.trajectory_file_output.file_type == LocalTrajectoryFileType::Csv,
        c.metrics_meter_name@ == "relayrl-client"@,
        c.metrics_otlp_endpoint.prefix@ == "http://"@,
        c.metrics_otlp_endpoint.host@ == "127.0.0.1"@,
        c.metrics_otlp_endpoint.port@ == "4317"@,
{
    crate::hyperparameters::law_algorithms_are_known_by_name(c.algorithm_name@);
}

/// Each piece of a client's configuration that was not set has its default, whichever others were.
pub proof fn law_unset_client_pieces_have_their_defaults(b: ClientConfigBuilder, r: ClientConfigLoader)
    requires
        client_built(b, r),
    ensures
        r.config_path@ == "client_config.json"@,
        b.algorithm_name is None ==> r.client_config.algorithm_name@ == "REINFORCE"@,
        b.config_update_polling_seconds is None
            ==> r.client_config.config_update_polling_seconds.text@ == "10"@,
        b.init_hyperparameters is None ==> r.client_config.init_hyperparameters.reinforce is Some
            && r.client_config.init_hyperparameters.ddpg is None
            && r.client_config.init_hyperparameters.ppo is None
            && r.client_config.init_hyperparameters.td3 is None
            && r.client_config.init_hyperparameters.custom is None,
        b.trajectory_file_output is None ==> r.client_config.trajectory_file_output.directory@
            == PathView::Plain("experiment_data"@)
            && r.client_config.trajectory_file_output.file_type == LocalTrajectoryFileType::Csv,
        b.metrics_name is None ==> r.client_config.metrics_meter_name@ == "relayrl-client"@,
        b.otlp_endpoint is None ==> r.client_config.metrics_otlp_endpoint.prefix@ == "http://"@
            && r.client_config.metrics_otlp_endpoint.host@ == "127.0.0.1"@
            && r.client_config.metrics_otlp_endpoint.port@ == "4317"@,
        b.transport_config is None ==> built_by_default(r.transport_config),
{
}

/// A training server that nothing was set for looks at its configuration every ten seconds, has no
/// hyperparameters of its own, and shows two averages over the epochs when asked to.
pub proof fn law_default_training_servers_are_quiet(c: TrainingServerConfigParams)
    requires
        default_training_server(c),
    ensures
        c.config_update_polling_seconds.text@ == "10"@,
        c.default_hyperparameters is None,
        !c.training_tensorboard.launch_tb_on_startup,
        texts(c.training_tensorboard.scalar_tags@) == seq!["AverageEpRet"@, "StdEpRet"@],
        c.training_tensorboard.global_step_tag@ == "Epoch"@,
{
}

/// Each piece of a training server's configuration that was not set has its default, whichever
/// others were.
pub proof fn law_unset_training_server_pieces_have_their_defaults(
    b: TrainingServerConfigBuilder,
    r: TrainingServerConfigLoader,
)
    requires
        training_server_built(b, r),
    ensures
        ({
            let c = r.training_server_config;
            &&& r.config_path@ == "training_server_config.json"@
            &&& b.config_update_polling_seconds is None ==> c.config_update_polling_seconds.text@
                == "10"@
            &&& b.default_hyperparameters is None ==> c.default_hyperparameters is None
            &&& b.training_tensorboard is None ==> !c.training_tensorboard.launch_tb_on_startup
                && texts(c.training_tensorboard.scalar_tags@) == seq![
                "AverageEpRet"@,
                "StdEpRet"@,
            ] && c.training_tensorboard.global_step_tag@ == "Epoch"@
            &&& b.training_tensorboard matches Some(t) ==> c.training_tensorboard.launch_tb_on_startup
                == t.launch_tb_on_startup && texts(c.training_tensorboard.scalar_tags@) == texts(
                t.scalar_tags@,
            ) && c.training_tensorboard.global_step_tag@ == t.global_step_tag@
            &&& b.transport_config is None ==> built_by_default(r.transport_config)
        }),
{
}

} // verus!
