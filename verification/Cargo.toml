[package]
name = "gridpool"
version = "0.1.0"
edition = "2021"
publish = false

[dependencies]
async-channel = "1.9"
hex = "=0.4.3"
reqwest = { version = "=0.12.28", default-features = false, features = ["json"] }
serde = { version = "1", features = ["derive"] }
serde_json = "1"
sha2 = "=0.10.9"
stratum-apps = { version = "=0.6.0", default-features = false, features = ["config", "core", "network", "payout", "std"] }
tokio = { version = "1", features = ["fs", "macros", "rt-multi-thread", "sync", "time"] }
tokio-util = "=0.7.20"
tracing = "0.1"
