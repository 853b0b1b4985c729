[package]
name = "icarus"
version = "0.1.0"
edition = "2021"
publish = false

[dependencies]
anyhow = "*"
btleplug = "*"
clap = { version = "*", features = ["derive"] }
futures = "*"
log = "*"
pretty_env_logger = "*"
thiserror = "*"
tokio = { version = "*", features = ["rt", "sync", "time", "macros", "signal"] }
uuid = "*"
