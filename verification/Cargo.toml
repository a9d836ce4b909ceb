[package]
name = "unimoji"
version = "0.1.0"
edition = "2021"
publish = false

[dependencies]
env_logger = "0.10"
image = { version = "0.24", default-features = false, features = ["png"] }
log = "0.4"
reqwest = "0.11"
serde = { version = "1", features = ["derive"] }
serde_json = "1"
spidev = "*"
tokio = { version = "1", features = ["macros", "rt-multi-thread", "time"] }
toml = "0.8"
