[package]
name = "p2p_camera"
version = "0.1.0"
edition = "2021"
publish = false

[dependencies]
anyhow = "1"
bytes = "1"
clap = { version = "4", features = ["derive"] }
crossbeam-channel = "0.5"
futures = "0.3"
jni = "0.21"
libp2p = { version = "0.56", features = ["dcutr", "ed25519", "identify", "macros", "mdns", "noise", "ping", "quic", "relay", "tcp", "tokio", "yamux"] }
libp2p-stream = "=0.4.0-alpha"
libp2p-swarm = "0.47"
serde = { version = "1", features = ["derive"] }
serde_json = "1"
tokio = { version = "1", features = ["full"] }
toml = "0.8"
tracing = "0.1"
tracing-subscriber = { version = "0.3", features = ["env-filter"] }
