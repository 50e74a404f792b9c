[package]
name = "corrupted_clock"
version = "0.1.0"
edition = "2021"
publish = false

[dependencies]
chrono = { version = "*", features = ["serde"] }
clap = { version = "*", features = ["derive", "env"] }
dirs = "*"
env_logger = "*"
log = "*"
prettytable-rs = "*"
serde = { version = "*", features = ["derive"] }
serde_json = "*"
thiserror = "*"
