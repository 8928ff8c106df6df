[package]
name = "custom_commands"
version = "0.1.0"
edition = "2021"
publish = false

[dependencies]
regex = "1"
shell-words = "1"
serde = { version = "1", features = ["derive"] }
serde_json = "1"
serde_yaml = "0.9"
toml = "0.8"
tokio = { version = "1", features = ["fs", "process", "time", "sync", "rt", "io-util"] }
walkdir = "2"
futures = "0.3"
dirs = "5"
thiserror = "1"
tracing = "0.1"
clap = { version = "4", features = ["derive"] }
crossterm = "0.28"
