[package]
name = "relayrl_framework"
version = "0.5.0"
edition = "2021"
publish = false

[dependencies]
active-uuid-registry = "*"
async-nats = "*"
bincode = { version = "2", features = ["serde"] }
bytes = "1"
dashmap = "6"
log = "0.4"
rand = "0.9"
serde = { version = "1", features = ["derive"] }
serde_json = "1"
tempfile = "3"
thiserror = "2"
tokio = { version = "1", features = ["rt", "rt-multi-thread", "sync", "time", "macros", "signal", "fs"] }
tokio-stream = "0.1"
zmq = "0.10"
