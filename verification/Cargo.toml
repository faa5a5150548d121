[package]
name = "lueur-cli"
version = "0.1.0"
edition = "2021"
publish = false

[dependencies]
governor = "=0.10.4"
url = "=2.5.8"
local-ip-address = "=0.6.13"
rand = { version = "=0.8.8", features = ["small_rng"] }
rand_distr = "=0.4.3"
colored = "=2.2.0"
indicatif = "=0.17.11"
clap = { version = "=4.6.7", features = ["derive"] }
serde = { version = "=1.0.229", features = ["derive"] }
serde_json = "=1.0.154"
serde_yaml = "=0.9.34"
thiserror = "=1.0.69"
anyhow = "=1.0.104"
chrono = "=0.4.45"
futures = "=0.3.34"
bytes = "=1.12.1"
pin-project = "=1.1.13"
tokio = { version = "=1.54.1", features = ["full"] }
tokio-util = { version = "=0.7.20", features = ["io"] }
axum = "=0.7.9"
hyper = { version = "=1.12.0", features = ["http1", "server", "client"] }
hyper-util = { version = "=0.1.21", features = ["tokio"] }
tower = { version = "=0.5.3", features = ["util"] }
reqwest = { version = "=0.12.28", default-features = false, features = ["stream"] }
tonic = { version = "=0.12.3", default-features = false }
oneshot = "=0.1.13"
tracing = "=0.1.44"
tracing-subscriber = { version = "=0.3.23", features = ["env-filter"] }
