[package]
name = "ssh_local_exec"
version = "0.1.0"
edition = "2021"
publish = false

[dependencies]
async-trait = "0.1"
bytes = "1"
ciborium = "0.2"
clap = { version = "4", features = ["derive", "env"] }
color-eyre = "0.6"
derive_more = "0.99"
futures = "0.3"
nix = { version = "0.26", default-features = false, features = ["signal"] }
serde = { version = "1", features = ["derive"] }
tokio = { version = "1", features = ["full"] }
tokio-shutdown = "0.1"
tokio-stream = "0.1"
tokio-util = { version = "0.7", features = ["codec"] }
tracing = "0.1"
tracing-subscriber = { version = "0.3", features = ["env-filter"] }
