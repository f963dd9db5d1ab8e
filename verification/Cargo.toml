[package]
name = "pgcat_config"
version = "0.1.0"
edition = "2021"
publish = false

[dependencies]
toml = "0.5"
arc-swap = "1"
once_cell = "1"
log = "0.4"
tokio = { version = "1", features = ["fs", "io-util"] }
