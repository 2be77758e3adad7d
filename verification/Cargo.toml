[package]
name = "league_notifier"
version = "0.1.0"
edition = "2021"
publish = false

[dependencies]
anyhow = "1"
clap = "3.1"
comfy-table = "6"
log = "0.4"
pretty_env_logger = "0.4"
reqwest = { version = "0.11", default-features = false, features = ["gzip"] }
serde = { version = "1", features = ["derive"] }
serde_json = "1"
strum = "0.24"
strum_macros = "0.24"
thiserror = "1"
tokio = { version = "1", features = ["macros", "rt-multi-thread", "time"] }
