[package]
name = "grafana_lib"
version = "0.1.0"
edition = "2021"
publish = false

[dependencies]
serde_json = "1"
log = "0.4"
env_logger = "*"
clap = { version = "4", features = ["derive"] }
reqwest = { version = "*", default-features = false, features = ["blocking", "json"] }
