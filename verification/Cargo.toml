[package]
name = "policy_server"
version = "0.1.0"
edition = "2021"
publish = false

[dependencies]
itertools = "=0.15.0"
serde = { version = "=1.0.229", features = ["derive"] }
serde_json = "=1.0.151"
tokio = { version = "=1.53.2", features = ["sync", "rt-multi-thread", "macros"] }
tracing = "=0.1.44"
warp = { version = "=0.4.3", features = ["server"] }
