[package]
name = "axe"
version = "0.1.0"
edition = "2021"
publish = false

[dependencies]
alloy = { version = "=2.5.0", default-features = false, features = ["std", "signer-local"] }
chrono = { version = "=0.4.45", default-features = false, features = ["alloc"] }
clap = { version = "=4.6.7", features = ["derive", "env"] }
comfy-table = "=7.2.2"
dirs = "=7.0.0"
dotenvy = "=0.15.7"
eyre = "=0.6.14"
indicatif = "=0.18.6"
rmcp = { version = "=3.8.0", features = ["server", "macros", "transport-io"] }
serde = { version = "=1.0.229", features = ["derive"] }
serde_json = "=1.0.154"
tokio = { version = "=1.54.1", features = ["rt-multi-thread", "macros", "time", "fs", "sync", "io-std"] }
