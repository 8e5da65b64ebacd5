[package]
name = "registry_resolver"
version = "0.1.0"
edition = "2021"
publish = false

[dependencies]
http = "1"
itertools = "0.10"
tendermint-rpc = { version = "*", features = ["websocket-client"] }
ibc-proto = "*"
async-trait = "0.1"
futures = "0.3"
tokio = { version = "1", features = ["rt", "rt-multi-thread", "macros", "time"] }
reqwest = { version = "0.12", default-features = false, features = ["json", "rustls-tls"] }
serde = { version = "1", features = ["derive"] }
serde_json = "1"
tracing = "0.1"
dirs-next = "2"
