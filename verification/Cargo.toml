[package]
name = "agent_core"
version = "0.1.0"
edition = "2021"
publish = false

[dependencies]
serde = { version = "=1.0.229", features = ["derive"] }
serde_json = "=1.0.154"
uuid = { version = "=1.29.0", features = ["v4"] }
chrono = { version = "=0.4.45", default-features = false, features = ["clock", "std"] }
toml = "=0.8.23"
tokio = { version = "=1.54.1", features = ["sync", "rt", "macros", "time"] }
async-trait = "=0.1.92"
glob = "0.3"
