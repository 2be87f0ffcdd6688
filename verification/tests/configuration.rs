//! Configurations: defaults, builders, files and hyperparameters.

use relayrl_framework::arguments::{parse_args, ArgMap, HyperparameterArgs};
use relayrl_framework::configuration::{
    hyperparameters_for, ClientConfigBuildParams, ClientConfigBuilder, ClientConfigFile,
    ClientConfigLoader, ClientConfigParams, OtlpEndpointParams, TensorboardParams,
    TrainingServerConfigBuildParams, TrainingServerConfigBuilder, TrainingServerConfigFile,
    TrainingServerConfigLoader, TrainingServerConfigParams, vec_scalar_tags,
};
use relayrl_framework::errors::ClientConfigError;
use relayrl_framework::hyperparameters::{
    yes, Algorithm, CustomAlgorithmParams, DDPGParams, HyperparameterConfig, PPOParams,
    REINFORCEParams, TD3Params,
};
use relayrl_framework::modes::{LocalTrajectoryFileParams, LocalTrajectoryFileType};
use relayrl_framework::numbers::Real;
use relayrl_framework::paths::FilePath;
use relayrl_framework::transport_config::{
    LocalModelModuleParams, NatsTransportAddresses, NetworkParams, TransportConfigBuildParams,
    TransportConfigBuilder, TransportConfigParams, ZmqTransportAddresses,
    ZmqTransportInferenceAddresses, ZmqTransportTrainingAddresses,
};
use serde_json::Value;

const VALID_CLIENT_CONFIG_JSON: &str = r#"{
    "client_config": {
        "algorithm_name": "TD3",
        "config_update_polling_seconds": 5.0,
        "init_hyperparameters": {
            "DDPG": {
                "seed": 1,
                "gamma": 0.99,
                "tau": 1e-2,
                "learning_rate": 3e-3,
                "batch_size": 128,
                "buffer_size": 50000,
                "learning_starts": 128,
                "policy_frequency": 1,  
                "noise_scale": 0.1,
                "train_iters": 50
            },
            "PPO": {
                "discrete": true,
                "seed": 0,
                "traj_per_epoch": 1,
                "clip_ratio": 0.1,
                "gamma": 0.99,
                "lam": 0.97,
                "pi_lr": 3e-4,
                "vf_lr": 3e-4,
                "train_pi_iters": 40,
                "train_v_iters": 40,
                "target_kl": 0.01
            },
            "REINFORCE": {
                "discrete": true,
                "with_vf_baseline": true,
                "seed": 1,
                "traj_per_epoch": 8,
                "gamma": 0.98,
                "lam": 0.97,
                "pi_lr": 3e-4,
                "vf_lr": 1e-3,
                "train_vf_iters": 80
            },
            "TD3": {
                "seed": 1,
                "gamma": 0.99,
                "tau": 0.005,
                "learning_rate": 3e-4,
                "batch_size": 128,
                "buffer_size": 50000,
                "exploration_noise": 0.1,
                "policy_noise": 0.2,
                "noise_clip": 0.5,
                "learning_starts": 25000,
                "policy_frequency": 2
            },
            "CUSTOM": {
                "_comment": "Add custom algorithm hyperparams here formatted just like the other algorithms. i.e. \"MAPPO\": {...}",
                "_comment2": "Make sure to add the algorithm name to the algorithm_name field",
                "_comment3": "These key-values will be sent to the server for initialization"
            }
        },
        "trajectory_file_output": {
            "directory": "experiment_data",
            "_comment": "use `Csv` or `Arrow`",
            "file_type": "Csv"
        },
        "metrics_meter_name": "my-custom-metric",
        "metrics_otlp_endpoint": {
            "prefix": "https://",
            "host": "0.0.0.0",
            "port": "9317"
        }
    },
    "transport_config": {
        "nats_addresses": {
            "inference_server_address": {
                "host": "127.0.0.1",
                "port": "50050"
            },
            "training_server_address": {
                "host": "127.0.0.1",
                "port": "50051"
            }
        },
        "zmq_addresses": {
            "inference_addresses": {
                "inference_server_address": {
                    "host": "127.0.0.1",
                    "port": "7800"
                },
                "inference_scaling_server_address": {
                    "host": "127.0.0.1",
                    "port": "7801"
                }
            },
            "training_addresses": {
                "model_server_address": {
                    "host": "127.0.0.1",
                    "port": "50051"
                },
                "trajectory_server_address": {
                    "host": "127.0.0.1",
                    "port": "7776"
                },
                "agent_listener_address": {
                    "host": "127.0.0.1",
                    "port": "7777"
                },
                "training_scaling_server_address": {
                    "host": "127.0.0.1",
                    "port": "7778"
                }
            }
        },
        "local_model_module": {
            "directory": "model_module",
            "model_name": "client_model",
            "format": "pt"
        },
        "max_traj_length": 100000000
    }
}"#;

const VALID_TRAINING_SERVER_CONFIG_JSON: &str = r#"{
    "training_server_config": {
        "config_update_polling_seconds": 10.0,
        "default_hyperparameters": {
            "DDPG": {
                "seed": 1,
                "gamma": 0.99,
                "tau": 1e-2,
                "learning_rate": 3e-3,
                "batch_size": 128,
                "buffer_size": 50000,
                "learning_starts": 128,
                "policy_frequency": 1,  
                "noise_scale": 0.1,
                "train_iters": 50
            },
            "PPO": {
                "discrete": true,
                "seed": 0,
                "traj_per_epoch": 1,
                "clip_ratio": 0.1,
                "gamma": 0.99,
                "lam": 0.97,
                "pi_lr": 3e-4,
                "vf_lr": 3e-4,
                "train_pi_iters": 40,
                "train_v_iters": 40,
                "target_kl": 0.01
            },
            "REINFORCE": {
                "discrete": true,
                "with_vf_baseline": true,
                "seed": 1,
                "traj_per_epoch": 8,
                "gamma": 0.98,
                "lam": 0.97,
                "pi_lr": 3e-4,
                "vf_lr": 1e-3,
                "train_vf_iters": 80
            },
            "TD3": {
                "seed": 1,
                "gamma": 0.99,
                "tau": 0.005,
                "learning_rate": 3e-4,
                "batch_size": 128,
                "buffer_size": 50000,
                "exploration_noise": 0.1,
                "policy_noise": 0.2,
                "noise_clip": 0.5,
                "learning_starts": 25000,
                "policy_frequency": 2
            }
        },
        "training_tensorboard": {
            "_comment1": "Runs `tensorboard --logdir /logs` in cwd on start up of server.",
            "launch_tb_on_startup": true,
            "_comment2": "scalar tags can be any column header from `progress.txt` files.",
            "_comment3": "For more than one tag, separate by semi-colon (;)",
            "scalar_tags": "AverageEpRet;LossQ",
            "global_step_tag": "Epoch"
        }
    },
    "transport_config": {
        "nats_addresses": {
            "inference_server_address": {
                "host": "127.0.0.1",
                "port": "50050"
            },
            "training_server_address": {
                "host": "127.0.0.1",
                "port": "50051"
            }
        },
        "zmq_addresses": {
            "inference_addresses": {
                "inference_server_address": {
                    "host": "127.0.0.1",
                    "port": "7800"
                },
                "inference_scaling_server_address": {
                    "host": "127.0.0.1",
                    "port": "7801"
                }
            },
            "training_addresses": {
                "model_server_address": {
                    "host": "127.0.0.1",
                    "port": "50051"
                },
                "trajectory_server_address": {
                    "host": "127.0.0.1",
                    "port": "7776"
                },
                "agent_listener_address": {
                    "host": "127.0.0.1",
                    "port": "7777"
                },
                "training_scaling_server_address": {
                    "host": "127.0.0.1",
                    "port": "7778"
                }
            }
        },
        "local_model_module": {
            "directory": "model_module",
            "model_name": "some_server_model",
            "format": "pt"
        },
        "max_traj_length": 100000000
    }
}"#;

fn text(v: &Value) -> String {
    v.as_str().unwrap().to_string()
}

fn small(v: &Value) -> u32 {
    v.as_u64().unwrap() as u32
}

fn decimal_number(v: &Value) -> Real {
    Real::of(&format!("{}", v.as_f64().unwrap() as f32))
}

fn address(v: &Value) -> NetworkParams {
    NetworkParams::of(v["host"].as_str().unwrap(), v["port"].as_str().unwrap())
}

fn transport(v: &Value) -> TransportConfigParams {
    let nats = &v["nats_addresses"];
    let inference = &v["zmq_addresses"]["inference_addresses"];
    let training = &v["zmq_addresses"]["training_addresses"];
    let model = &v["local_model_module"];
    TransportConfigParams {
        nats_addresses: NatsTransportAddresses {
            inference_server_address: address(&nats["inference_server_address"]),
            training_server_address: address(&nats["training_server_address"]),
        },
        zmq_addresses: ZmqTransportAddresses {
            inference_addresses: ZmqTransportInferenceAddresses {
                inference_server_address: address(&inference["inference_server_address"]),
                inference_scaling_server_address: address(
                    &inference["inference_scaling_server_address"],
                ),
            },
            training_addresses: ZmqTransportTrainingAddresses {
                agent_listener_address: address(&training["agent_listener_address"]),
                model_server_address: address(&training["model_server_address"]),
                trajectory_server_address: address(&training["trajectory_server_address"]),
                training_scaling_server_address: address(
                    &training["training_scaling_server_address"],
                ),
            },
        },
        max_traj_length: v["max_traj_length"].as_u64().unwrap() as usize,
        local_model_module: LocalModelModuleParams {
            directory: text(&model["directory"]),
            model_name: text(&model["model_name"]),
            format: text(&model["format"]),
        },
    }
}

fn hyperparameters(v: &Value) -> HyperparameterConfig {
    let d = &v["DDPG"];
    let p = &v["PPO"];
    let r = &v["REINFORCE"];
    let t = &v["TD3"];
    HyperparameterConfig {
        ddpg: Some(DDPGParams {
            seed: small(&d["seed"]),
            gamma: decimal_number(&d["gamma"]),
            tau: decimal_number(&d["tau"]),
            learning_rate: decimal_number(&d["learning_rate"]),
            batch_size: small(&d["batch_size"]),
            buffer_size: small(&d["buffer_size"]),
            learning_starts: small(&d["learning_starts"]),
            policy_frequency: small(&d["policy_frequency"]),
            noise_scale: decimal_number(&d["noise_scale"]),
            train_iters: small(&d["train_iters"]),
        }),
        ppo: Some(PPOParams {
            discrete: p["discrete"].as_bool().unwrap(),
            seed: small(&p["seed"]),
            traj_per_epoch: small(&p["traj_per_epoch"]),
            clip_ratio: decimal_number(&p["clip_ratio"]),
            gamma: decimal_number(&p["gamma"]),
            lam: decimal_number(&p["lam"]),
            pi_lr: decimal_number(&p["pi_lr"]),
            vf_lr: decimal_number(&p["vf_lr"]),
            train_pi_iters: small(&p["train_pi_iters"]),
            train_v_iters: small(&p["train_v_iters"]),
            target_kl: decimal_number(&p["target_kl"]),
        }),
        reinforce: Some(REINFORCEParams {
            discrete: r["discrete"].as_bool().unwrap(),
            with_vf_baseline: r["with_vf_baseline"].as_bool().unwrap(),
            seed: small(&r["seed"]),
            traj_per_epoch: small(&r["traj_per_epoch"]),
            gamma: decimal_number(&r["gamma"]),
            lam: decimal_number(&r["lam"]),
            pi_lr: decimal_number(&r["pi_lr"]),
            vf_lr: decimal_number(&r["vf_lr"]),
            train_vf_iters: small(&r["train_vf_iters"]),
        }),
        td3: Some(TD3Params {
            seed: small(&t["seed"]),
            gamma: decimal_number(&t["gamma"]),
            tau: decimal_number(&t["tau"]),
            learning_rate: decimal_number(&t["learning_rate"]),
            batch_size: small(&t["batch_size"]),
            buffer_size: small(&t["buffer_size"]),
            exploration_noise: decimal_number(&t["exploration_noise"]),
            policy_noise: decimal_number(&t["policy_noise"]),
            noise_clip: decimal_number(&t["noise_clip"]),
            learning_starts: small(&t["learning_starts"]),
            policy_frequency: small(&t["policy_frequency"]),
        }),
        custom: None,
    }
}

fn read_client(json: &str) -> Option<ClientConfigFile> {
    let value: Value = serde_json::from_str(json).ok()?;
    let c = &value["client_config"];
    let endpoint = &c["metrics_otlp_endpoint"];
    Some(ClientConfigFile {
        client_config: ClientConfigParams {
            algorithm_name: text(&c["algorithm_name"]),
            config_update_polling_seconds: decimal_number(&c["config_update_polling_seconds"]),
            init_hyperparameters: hyperparameters(&c["init_hyperparameters"]),
            trajectory_file_output: LocalTrajectoryFileParams {
                directory: FilePath::Plain(text(&c["trajectory_file_output"]["directory"])),
                file_type: LocalTrajectoryFileType::Csv,
            },
            metrics_meter_name: text(&c["metrics_meter_name"]),
            metrics_otlp_endpoint: OtlpEndpointParams {
                prefix: text(&endpoint["prefix"]),
                host: text(&endpoint["host"]),
                port: text(&endpoint["port"]),
            },
        },
        transport_config: transport(&value["transport_config"]),
    })
}

fn read_training_server(json: &str) -> Option<TrainingServerConfigFile> {
    let value: Value = serde_json::from_str(json).ok()?;
    let c = &value["training_server_config"];
    let board = &c["training_tensorboard"];
    Some(TrainingServerConfigFile {
        training_server_config: TrainingServerConfigParams {
            config_update_polling_seconds: decimal_number(&c["config_update_polling_seconds"]),
            default_hyperparameters: Some(hyperparameters(&c["default_hyperparameters"])),
            training_tensorboard: TensorboardParams {
                launch_tb_on_startup: board["launch_tb_on_startup"].as_bool().unwrap(),
                scalar_tags: vec_scalar_tags(board["scalar_tags"].as_str().unwrap()),
                global_step_tag: text(&board["global_step_tag"]),
            },
        },
        transport_config: transport(&value["transport_config"]),
    })
}

fn number(r: &Real) -> f32 {
    r.text.parse::<f32>().unwrap()
}

fn empty_transport_builder() -> TransportConfigBuilder {
    TransportConfigBuilder {
        nats_inference_server_address: None,
        nats_training_server_address: None,
        zmq_inference_server_address: None,
        zmq_agent_listener_address: None,
        zmq_model_server_address: None,
        zmq_trajectory_server_address: None,
        zmq_inference_scaling_server_address: None,
        zmq_training_scaling_server_address: None,
        max_traj_length: None,
        local_model_module: None,
    }
}

fn empty_client_builder() -> ClientConfigBuilder {
    ClientConfigBuilder {
        algorithm_name: None,
        config_update_polling_seconds: None,
        init_hyperparameters: None,
        transport_config: None,
        trajectory_file_output: None,
        metrics_name: None,
        otlp_endpoint: None,
    }
}

fn empty_training_builder() -> TrainingServerConfigBuilder {
    TrainingServerConfigBuilder {
        config_update_polling_seconds: None,
        default_hyperparameters: None,
        training_tensorboard: None,
        transport_config: None,
    }
}

fn named(pairs: &[(&str, &str)]) -> ArgMap {
    let mut map = ArgMap::new();
    for (key, value) in pairs {
        map.insert(key.to_string(), value.to_string());
    }
    map
}

#[test]
fn from_string_yields_invalid_value() {
    let err = ClientConfigError::from("bad input".to_string());
    assert!(matches!(err, ClientConfigError::InvalidValue(ref s) if s == "bad input"));
}

#[test]
fn config_errors_describe_themselves() {
    assert_eq!(
        ClientConfigError::InvalidValue("bad input".to_string()).message(),
        "Invalid config value: bad input"
    );
    assert_eq!(
        ClientConfigError::NotFound("x".to_string()).message(),
        "Config file not found: x"
    );
    assert_eq!(
        ClientConfigError::ParseError("x".to_string()).message(),
        "Failed to parse config: x"
    );
}

#[test]
fn algorithm_from_str_known_variants() {
    assert_eq!(Algorithm::from_str("DDPG"), Some(Algorithm::DDPG));
    assert_eq!(Algorithm::from_str("PPO"), Some(Algorithm::PPO));
    assert_eq!(Algorithm::from_str("REINFORCE"), Some(Algorithm::REINFORCE));
    assert_eq!(Algorithm::from_str("TD3"), Some(Algorithm::TD3));
    assert_eq!(
        Algorithm::from_str("CONFIG_INIT"),
        Some(Algorithm::ConfigInit)
    );
}

#[test]
fn algorithm_from_str_unknown_becomes_custom() {
    assert_eq!(
        Algorithm::from_str("MAPPO"),
        Some(Algorithm::CUSTOM("MAPPO".to_string()))
    );
}

#[test]
fn algorithm_as_str_round_trips_known() {
    assert_eq!(Algorithm::DDPG.as_str(), "DDPG");
    assert_eq!(Algorithm::PPO.as_str(), "PPO");
    assert_eq!(Algorithm::REINFORCE.as_str(), "REINFORCE");
    assert_eq!(Algorithm::TD3.as_str(), "TD3");
    assert_eq!(Algorithm::ConfigInit.as_str(), "CONFIG_INIT");
}

#[test]
fn algorithm_custom_as_str() {
    assert_eq!(Algorithm::CUSTOM("MY_ALGO".to_string()).as_str(), "MY_ALGO");
}

#[test]
fn hyperparameter_default_reinforce_only() {
    let hp = HyperparameterConfig::default();
    assert!(hp.ddpg.is_none());
    assert!(hp.ppo.is_none());
    assert!(hp.reinforce.is_some());
    assert!(hp.td3.is_none());
    assert!(hp.custom.is_none());
}

#[test]
fn hyperparameter_to_args_specific_algorithm_returns_expected_keys() {
    let hp = HyperparameterConfig::default();
    let args = hp.to_args(Some(&Algorithm::REINFORCE));
    assert_eq!(args.len(), 1);
    let entry = args
        .get(&Algorithm::REINFORCE)
        .expect("REINFORCE entry missing");
    assert!(entry.contains_key("seed"));
    assert!(entry.contains_key("gamma"));
    assert!(entry.contains_key("lam"));
    assert!(entry.contains_key("pi_lr"));
    assert!(entry.contains_key("vf_lr"));
}

#[test]
fn hyperparameter_to_args_none_returns_all_present_algorithms() {
    let hp = HyperparameterConfig::default();
    let args = hp.to_args(None);
    assert_eq!(args.len(), 1);
    assert!(args.contains_key(&Algorithm::REINFORCE));
}

#[test]
fn transport_build_default_nats_addresses() {
    let transport = TransportConfigBuilder::build_default();
    let nats_inf = transport.get_nats_inference_server_address();
    let nats_train = transport.get_nats_training_server_address();
    assert_eq!(nats_inf.host, "127.0.0.1");
    assert_eq!(nats_inf.port, "50050");
    assert_eq!(nats_train.host, "127.0.0.1");
    assert_eq!(nats_train.port, "50051");
}

#[test]
fn transport_build_default_zmq_addresses() {
    let transport = TransportConfigBuilder::build_default();
    let model_server = transport.get_zmq_model_server_address();
    let traj_server = transport.get_zmq_trajectory_server_address();
    assert_eq!(model_server.host, "127.0.0.1");
    assert_eq!(model_server.port, "50051");
    assert_eq!(traj_server.host, "127.0.0.1");
    assert_eq!(traj_server.port, "7776");
}

#[test]
fn transport_builder_custom_nats_inference_address() {
    let mut builder = empty_transport_builder();
    builder.set_nats_inference_server_address("10.0.0.1", "9999");
    let transport = builder.build();
    let addr = transport.get_nats_inference_server_address();
    assert_eq!(addr.host, "10.0.0.1");
    assert_eq!(addr.port, "9999");
}

#[test]
fn transport_builder_custom_max_traj_length() {
    let mut builder = empty_transport_builder();
    builder.set_max_traj_length(500);
    let transport = builder.build();
    assert_eq!(transport.max_traj_length, 500);
}

#[test]
fn client_build_default_algorithm_is_reinforce() {
    let loader = ClientConfigBuilder::build_default();
    assert_eq!(loader.get_algorithm_name(), "REINFORCE");
}

#[test]
fn client_build_default_config_path() {
    let loader = ClientConfigBuilder::build_default();
    assert_eq!(
        loader.get_config_path(),
        "client_config.json"
    );
}

#[test]
fn client_build_default_polling_seconds() {
    let loader = ClientConfigBuilder::build_default();
    assert_eq!(number(&loader.client_config.config_update_polling_seconds), 10.0_f32);
}

#[test]
fn client_build_default_metrics_name() {
    let loader = ClientConfigBuilder::build_default();
    assert_eq!(loader.get_metrics_meter_name(), "relayrl-client");
}

#[test]
fn client_build_default_otlp_endpoint() {
    let loader = ClientConfigBuilder::build_default();
    assert_eq!(
        loader.get_metrics_otlp_endpoint().prefix,
        "http://".to_string()
    );
    assert_eq!(
        loader.get_metrics_otlp_endpoint().host,
        "127.0.0.1".to_string()
    );
    assert_eq!(loader.get_metrics_otlp_endpoint().port, "4317".to_string());
}

#[test]
fn client_build_default_hyperparameters_has_reinforce_only() {
    let loader = ClientConfigBuilder::build_default();
    let hp = loader.get_init_hyperparameters();
    assert!(hp.ddpg.is_none());
    assert!(hp.ppo.is_none());
    assert!(hp.reinforce.is_some());
    assert!(hp.td3.is_none());
    assert!(hp.custom.is_none());
}

#[test]
fn client_builder_overrides_algorithm_name() {
    let mut builder = empty_client_builder();
    builder.set_algorithm_name("PPO");
    let loader = builder.build();
    assert_eq!(loader.get_algorithm_name(), "PPO");
}

#[test]
fn client_builder_overrides_metrics_name() {
    let mut builder = empty_client_builder();
    builder.set_metrics_name("my-custom-metric");
    let loader = builder.build();
    assert_eq!(loader.get_metrics_meter_name(), "my-custom-metric");
}

#[test]
fn client_builder_overrides_otlp_endpoint() {
    let mut builder = empty_client_builder();
    builder.set_otlp_endpoint(OtlpEndpointParams {
        prefix: "http://".to_string(),
        host: "0.0.0.0".to_string(),
        port: "9317".to_string(),
    });
    let loader = builder.build();
    assert_eq!(
        loader.get_metrics_otlp_endpoint().prefix,
        "http://".to_string()
    );
    assert_eq!(
        loader.get_metrics_otlp_endpoint().host,
        "0.0.0.0".to_string()
    );
    assert_eq!(loader.get_metrics_otlp_endpoint().port, "9317".to_string());
}

#[test]
fn client_load_config_from_valid_json_file() {
    let path = "config.json".to_string();
    let file = read_client(VALID_CLIENT_CONFIG_JSON);
    let loader = ClientConfigLoader::load_config(&path, file);
    assert_eq!(loader.get_algorithm_name(), "TD3");
    assert_eq!(number(&loader.client_config.config_update_polling_seconds), 5.0_f32);
    assert_eq!(loader.get_metrics_meter_name(), "my-custom-metric");
    assert_eq!(
        loader.get_metrics_otlp_endpoint().prefix,
        "https://".to_string()
    );
    assert_eq!(
        loader.get_metrics_otlp_endpoint().host,
        "0.0.0.0".to_string()
    );
    assert_eq!(loader.get_metrics_otlp_endpoint().port, "9317".to_string());
}

#[test]
fn client_load_config_transport_parsed_from_valid_json() {
    let path = "config.json".to_string();
    let file = read_client(VALID_CLIENT_CONFIG_JSON);
    let loader = ClientConfigLoader::load_config(&path, file);
    let transport = loader.get_transport_config();
    assert_eq!(transport.get_nats_inference_server_address().port, "50050");
    assert_eq!(transport.get_zmq_trajectory_server_address().port, "7776");
    assert_eq!(transport.max_traj_length, 100000000);
}

#[test]
fn client_load_config_fallback_on_malformed_json() {
    let path = "config.json".to_string();
    let file = read_client("NOT VALID JSON {{{{");
    assert!(file.is_none());
    let loader = ClientConfigLoader::load_config(&path, file);
    assert_eq!(loader.get_algorithm_name(), "REINFORCE");
    assert_eq!(number(&loader.client_config.config_update_polling_seconds), 10.0_f32);
    assert_eq!(loader.get_metrics_meter_name(), "relayrl-client");
}

#[test]
fn client_new_config_algorithm_override() {
    let path = "config.json".to_string();
    let file = read_client(VALID_CLIENT_CONFIG_JSON);
    let loader = ClientConfigLoader::new_config(Some("TD3".to_string()), path, file);
    assert_eq!(loader.get_algorithm_name(), "TD3");
}

#[test]
fn client_new_config_uses_file_algorithm_when_none_passed() {
    let path = "config.json".to_string();
    let file = read_client(VALID_CLIENT_CONFIG_JSON);
    let loader = ClientConfigLoader::new_config(None, path.clone(), file);
    assert_eq!(loader.get_algorithm_name(), "TD3");
    assert_eq!(loader.get_config_path(), &path);
}

#[test]
fn training_server_build_default_config_path() {
    let loader = TrainingServerConfigBuilder::build_default();
    assert_eq!(
        loader.get_config_path(),
        "training_server_config.json"
    );
}

#[test]
fn training_server_build_default_no_hyperparameters() {
    let loader = TrainingServerConfigBuilder::build_default();
    assert!(loader.get_hyperparameters().is_none());
}

#[test]
fn training_server_build_default_tensorboard_not_launched() {
    let loader = TrainingServerConfigBuilder::build_default();
    assert!(!loader.get_training_tensorboard().launch_tb_on_startup);
}

#[test]
fn training_server_build_default_tensorboard_scalar_tags() {
    let loader = TrainingServerConfigBuilder::build_default();
    let tags = &loader.get_training_tensorboard().scalar_tags;
    assert_eq!(
        tags,
        &vec!["AverageEpRet".to_string(), "StdEpRet".to_string()]
    );
}

#[test]
fn training_server_builder_build_default_config_path() {
    let builder = empty_training_builder();
    let loader = builder.build();
    assert_eq!(
        loader.get_config_path(),
        "training_server_config.json"
    );
    assert_eq!(number(loader.get_config_update_polling_seconds()), 10.0);
    assert!(loader.get_hyperparameters().is_none());
    assert!(!loader.get_training_tensorboard().launch_tb_on_startup);
    assert_eq!(
        loader
            .get_transport_config()
            .get_nats_inference_server_address()
            .port,
        "50050"
    );
    assert_eq!(
        loader
            .get_transport_config()
            .get_zmq_trajectory_server_address()
            .port,
        "7776"
    );
    assert_eq!(loader.get_transport_config().max_traj_length, 100000000);
    assert_eq!(
        loader.get_transport_config().local_model_module.directory,
        "model_module"
    );
    assert_eq!(
        loader.get_transport_config().local_model_module.model_name,
        "model"
    );
    assert_eq!(
        loader.get_transport_config().local_model_module.format,
        "pt"
    );
}

#[test]
fn training_server_builder_overrides_tensorboard_params() {
    let mut builder = empty_training_builder();
    builder.set_training_tensorboard_params(true, "MetricA;MetricB", "Step");
    let loader = builder.build();
    let tb = loader.get_training_tensorboard();
    assert!(tb.launch_tb_on_startup);
    assert_eq!(
        tb.scalar_tags,
        vec!["MetricA".to_string(), "MetricB".to_string()]
    );
    assert_eq!(tb.global_step_tag, "Step");
}

#[test]
fn training_server_load_config_from_valid_json_file() {
    let path = "config.json".to_string();
    let file = read_training_server(VALID_TRAINING_SERVER_CONFIG_JSON);
    let loader = TrainingServerConfigLoader::load_config(&path, file);
    assert_eq!(loader.get_config_path(), &path);
    assert!(loader.get_hyperparameters().is_some());
}

#[test]
fn training_server_load_config_tensorboard_tags_parsed_from_semicolon() {
    let path = "config.json".to_string();
    let file = read_training_server(VALID_TRAINING_SERVER_CONFIG_JSON);
    let loader = TrainingServerConfigLoader::load_config(&path, file);
    let tb = loader.get_training_tensorboard();
    assert!(tb.launch_tb_on_startup);
    assert_eq!(
        tb.scalar_tags,
        vec!["AverageEpRet".to_string(), "LossQ".to_string()]
    );
    assert_eq!(tb.global_step_tag, "Epoch");
}

#[test]
fn training_server_load_config_fallback_on_malformed_json() {
    let path = "config.json".to_string();
    let file = read_training_server("NOT VALID JSON {{{{");
    assert!(file.is_none());
    let loader = TrainingServerConfigLoader::load_config(&path, file);
    assert_eq!(loader.get_config_path(), &path);
    assert!(loader.get_hyperparameters().is_none());
    assert!(!loader.get_training_tensorboard().launch_tb_on_startup);
}

#[test]
fn building_from_nothing_gives_the_defaults() {
    let built = empty_client_builder().build();
    let default = ClientConfigBuilder::build_default();
    assert_eq!(built.get_algorithm_name(), default.get_algorithm_name());
    assert_eq!(built.get_config_path(), default.get_config_path());
    assert!(matches!(
        &built.get_trajectory_file_output().directory,
        FilePath::Plain(text) if text == "experiment_data"
    ));
    assert_eq!(
        built.get_transport_config().get_zmq_agent_listener_address().port,
        "7779"
    );
    let transport = empty_transport_builder().build();
    assert_eq!(transport.get_zmq_agent_listener_address().port, "7778");
    assert_eq!(transport.get_zmq_trajectory_server_address().port, "7776");
    assert_eq!(transport.max_traj_length, 1000);
    let server = empty_training_builder().build();
    assert_eq!(server.get_training_tensorboard().global_step_tag, "Epoch");
}

#[test]
fn all_transport_pieces_are_built() {
    let mut builder = empty_transport_builder();
    builder
        .set_nats_inference_server_address("a", "1")
        .set_nats_training_server_address("b", "2")
        .set_zmq_inference_server_address("c", "3")
        .set_zmq_agent_listener_address("d", "4")
        .set_zmq_model_server_address("e", "5")
        .set_zmq_trajectory_server_address("f", "6")
        .set_zmq_inference_scaling_server_address("g", "7")
        .set_zmq_training_scaling_server_address("h", "8")
        .set_max_traj_length(9)
        .set_local_model_module("dir", "name");
    let t = builder.build();
    assert_eq!(*t.get_nats_inference_server_address(), NetworkParams::of("a", "1"));
    assert_eq!(*t.get_nats_training_server_address(), NetworkParams::of("b", "2"));
    assert_eq!(*t.get_zmq_inference_server_address(), NetworkParams::of("c", "3"));
    assert_eq!(*t.get_zmq_agent_listener_address(), NetworkParams::of("d", "4"));
    assert_eq!(*t.get_zmq_model_server_address(), NetworkParams::of("e", "5"));
    assert_eq!(*t.get_zmq_trajectory_server_address(), NetworkParams::of("f", "6"));
    assert_eq!(
        *t.get_zmq_inference_scaling_server_address(),
        NetworkParams::of("g", "7")
    );
    assert_eq!(
        *t.get_zmq_training_scaling_server_address(),
        NetworkParams::of("h", "8")
    );
    assert_eq!(t.max_traj_length, 9);
    assert_eq!(t.local_model_module.directory, "dir");
    assert_eq!(t.local_model_module.model_name, "name");
}

#[test]
fn algorithm_names_survive_reading_and_naming() {
    for name in ["DDPG", "PPO", "REINFORCE", "TD3", "CONFIG_INIT", "MAPPO", ""] {
        assert_eq!(Algorithm::from_str(name).unwrap().as_str(), name);
    }
    assert!(Algorithm::PPO.same_as(&Algorithm::PPO));
    assert!(!Algorithm::CUSTOM("PPO".to_string()).same_as(&Algorithm::PPO));
    // A custom algorithm that bears the name of a built-in one is read as that one.
    assert_eq!(
        Algorithm::from_str(Algorithm::CUSTOM("PPO".to_string()).as_str()),
        Some(Algorithm::PPO)
    );
}

#[test]
fn arguments_of_one_algorithm_are_those_among_all() {
    let mut hp = HyperparameterConfig::default();
    hp.ddpg = Some(DDPGParams::default());
    hp.td3 = Some(TD3Params::default());
    let all = hp.to_args(None);
    assert_eq!(all.len(), 3);
    let one = hp.to_args(Some(&Algorithm::DDPG));
    assert_eq!(one.len(), 1);
    for key in ["seed", "gamma", "tau", "learning_rate", "noise_scale"] {
        assert_eq!(
            one.get(&Algorithm::DDPG).unwrap().get(key),
            all.get(&Algorithm::DDPG).unwrap().get(key)
        );
    }
    assert_eq!(
        one.get(&Algorithm::DDPG).unwrap().get("learning_rate").unwrap(),
        "0.003"
    );
    assert!(hp.to_args(Some(&Algorithm::PPO)).get(&Algorithm::PPO).is_none());
}

#[test]
fn custom_arguments_go_under_the_name_asked_for() {
    let mut hp = HyperparameterConfig::default();
    hp.custom = Some(CustomAlgorithmParams {
        algorithm_name: Algorithm::CUSTOM("MAPPO".to_string()),
        hyperparams: named(&[("width", "8")]),
    });
    let asked = Algorithm::CUSTOM("OTHER".to_string());
    let args = hp.to_args(Some(&asked));
    assert_eq!(args.len(), 1);
    let map = args.get(&asked).unwrap();
    assert_eq!(map.get("custom_algorithm_name").unwrap(), "MAPPO");
    assert_eq!(map.get("width").unwrap(), "8");
}

#[test]
fn listed_arguments_are_split_at_equals_or_space() {
    let args = parse_args(&Some(HyperparameterArgs::Listed(vec![
        "seed=3".to_string(),
        "gamma 0.5".to_string(),
        "name=a b".to_string(),
        "empty=".to_string(),
    ])));
    assert_eq!(args.get("seed").unwrap(), "3");
    assert_eq!(args.get("gamma").unwrap(), "0.5");
    assert_eq!(args.get("name").unwrap(), "a b");
    assert_eq!(args.get("empty").unwrap(), "");
    assert!(args.get("broken").is_none());
    assert_eq!(args.len(), 4);
    assert_eq!(parse_args(&None).len(), 0);
}

#[test]
fn hyperparameters_are_set_for_the_algorithm_named_in_any_case() {
    let mut builder = empty_training_builder();
    let args = HyperparameterArgs::Named(named(&[
        ("seed", "7"),
        ("gamma", "0.50"),
        ("discrete", "YES"),
        ("traj_per_epoch", "-1"),
    ]));
    let readings = named(&[("0.50", "0.5"), ("7", "7")]);
    builder.set_hyperparameters("ppo", args, &readings);
    let hp = builder.build();
    let hp = hp.get_hyperparameters().as_ref().unwrap();
    let ppo = hp.ppo.as_ref().unwrap();
    assert_eq!(ppo.seed, 7);
    assert_eq!(ppo.gamma.text, "0.5");
    assert!(ppo.discrete);
    assert_eq!(ppo.traj_per_epoch, PPOParams::default().traj_per_epoch);
    assert_eq!(hp.ddpg.as_ref().unwrap().seed, DDPGParams::default().seed);
    assert!(hp.custom.is_none());
}

#[test]
fn arguments_by_one_name_are_not_well_formed() {
    assert!(HyperparameterArgs::Named(named(&[("a", "1"), ("b", "1")])).is_wf());
    let pair = |name: &str| (name.to_string(), "1".to_string());
    let twice = ArgMap { entries: vec![pair("a"), pair("b"), pair("a")] };
    assert!(!twice.is_wf());
    assert!(!HyperparameterArgs::Named(twice).is_wf());
    assert!(HyperparameterArgs::Listed(vec!["a=1".to_string()]).is_wf());
    assert!(!HyperparameterArgs::Listed(vec!["a=1=2".to_string()]).is_wf());
}

#[test]
fn flags_say_yes_in_any_case() {
    for text in ["true", "TRUE", "True", "1", "yes", "yEs"] {
        assert!(yes(text), "{}", text);
    }
    for text in ["false", "0", "no", "y", "", " true", "ŸES"] {
        assert!(!yes(text), "{}", text);
    }
}

#[test]
fn the_case_of_an_algorithm_name_is_ignored() {
    for name in ["td3", "TD3", "Td3"] {
        let mut builder = empty_training_builder();
        let args = HyperparameterArgs::Named(named(&[("seed", "9")]));
        builder.set_hyperparameters(name, args, &named(&[]));
        let built = builder.build();
        let td3 = built.get_hyperparameters().as_ref().unwrap().td3.as_ref().unwrap();
        assert_eq!(td3.seed, 9);
    }
}

#[test]
fn hyperparameters_of_custom_algorithms_are_kept_as_given() {
    let hp = hyperparameters_for("MAPPO", &named(&[("width", "8")]), &named(&[])).unwrap();
    let custom = hp.custom.unwrap();
    assert_eq!(custom.algorithm_name, Algorithm::CUSTOM("MAPPO".to_string()));
    assert_eq!(custom.hyperparams.get("width").unwrap(), "8");
    assert!(hyperparameters_for("CONFIG_INIT", &named(&[]), &named(&[])).is_none());
}

#[test]
fn argument_maps_keep_the_last_value_of_a_key() {
    let mut map = named(&[("a", "1"), ("b", "2")]);
    map.insert("a".to_string(), "3".to_string());
    assert_eq!(map.len(), 2);
    assert_eq!(map.get("a").unwrap(), "3");
    map.extend(&named(&[("b", "4"), ("c", "5")]));
    assert_eq!(map.len(), 3);
    assert_eq!(map.get("b").unwrap(), "4");
    assert!(map.contains_key("c"));
    assert!(!map.contains_key("d"));
}

#[test]
fn hyperparameters_survive_being_written_as_arguments() {
    let mut ddpg = DDPGParams::default();
    ddpg.seed = u32::MAX;
    ddpg.batch_size = 0;
    ddpg.tau = Real::of("0.25");
    let mut ppo = PPOParams::default();
    ppo.discrete = false;
    ppo.train_v_iters = 7;
    let mut td3 = TD3Params::default();
    td3.noise_clip = Real::of("0.75");
    let mut reinforce = REINFORCEParams::default();
    reinforce.with_vf_baseline = true;
    reinforce.traj_per_epoch = 1_000_000;
    let config = HyperparameterConfig {
        ddpg: Some(ddpg),
        ppo: Some(ppo),
        reinforce: Some(reinforce),
        td3: Some(td3),
        custom: None,
    };
    let mut client = ClientConfigLoader::load_config("c.json", None);
    client.client_config.init_hyperparameters = config;
    let table = client.get_init_hyperparameter_args(None);
    assert_eq!(table.len(), 4);
    let back = |algorithm: Algorithm| {
        let args = table.get(&algorithm).unwrap().clone();
        let mut readings = ArgMap::new();
        for (_, value) in &args.entries {
            if value.parse::<f32>().is_ok() {
                readings.insert(value.clone(), value.clone());
            }
        }
        let mut builder = empty_training_builder();
        builder.set_hyperparameters(
            algorithm.as_str(),
            HyperparameterArgs::Named(args),
            &readings,
        );
        builder.build().training_server_config.default_hyperparameters.unwrap()
    };
    let ddpg = back(Algorithm::DDPG).ddpg.unwrap();
    assert_eq!((ddpg.seed, ddpg.batch_size), (u32::MAX, 0));
    assert_eq!(ddpg.tau.text, "0.25");
    let ppo = back(Algorithm::PPO).ppo.unwrap();
    assert!(!ppo.discrete);
    assert_eq!(ppo.train_v_iters, 7);
    let reinforce = back(Algorithm::REINFORCE).reinforce.unwrap();
    assert!(reinforce.with_vf_baseline);
    assert_eq!(reinforce.traj_per_epoch, 1_000_000);
    assert_eq!(back(Algorithm::TD3).td3.unwrap().noise_clip.text, "0.75");
}
