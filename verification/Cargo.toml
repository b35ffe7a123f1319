[package]
name = "mnemnk-application"
version = "0.1.0"
edition = "2021"
publish = false

[dependencies]
active-win-pos-rs = "*"
anyhow = "1"
chrono = "0.4"
clap = { version = "4", features = ["derive"] }
env_logger = "*"
log = "0.4"
serde = { version = "1", features = ["derive"] }
serde_json = "1"
tokio = { version = "1", features = ["macros", "rt-multi-thread", "io-std", "io-util", "signal", "time"] }
