[package]
name = "jsonrpc_proxy"
version = "0.1.0"
edition = "2021"
publish = false

[dependencies]
jsonrpc-core = "18"
jsonrpc-pubsub = "18"
jsonrpc-http-server = "18"
jsonrpc-ws-server = "18"
jsonrpc-tcp-server = "18"
jsonrpc-ipc-server = "18"
serde = { version = "1", features = ["derive"] }
serde_json = "1"
rlp = "0.4"
ethereum-types = "0.9"
impl-serde = "0.3"
tiny-keccak = "1.5"
ethsign = "*"
twox-hash = "1"
fnv = "1"
parking_lot = "0.11"
clap = { version = "2", features = ["yaml"] }
env_logger = "*"
log = "0.4"
tokio = { version = "1", features = ["full"] }
futures = "0.3"
url = "2"
websocket = { version = "0.26", default-features = false, features = ["async"] }
