[package]
name = "snapshot_relay"
version = "0.1.0"
edition = "2021"
publish = false

[dependencies]
clap = "*"
env_logger = "*"
log = "*"
rdkafka = "*"
reqwest = { version = "*", default-features = false }
tokio = { version = "*", features = ["full"] }
