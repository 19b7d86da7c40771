[package]
name = "league_record"
version = "0.1.0"
edition = "2021"
publish = false

[dependencies]
anyhow = "1"
bytes = "1"
chrono = "0.4"
futures = "0.3"
futures-util = "0.3"
hyper = { version = "0.14", features = ["server", "http1", "tcp", "stream"] }
log = "0.4"
notify = "6"
percent-encoding = "2"
semver = "1"
serde = { version = "1", features = ["derive"] }
serde_json = "1"
serde_repr = "0.1"
shaco = "*"
strum_macros = "0.26"
tokio = { version = "1", features = ["full"] }
tokio-util = { version = "0.7", features = ["io"] }
