[package]
name = "broadcast_ip"
version = "0.1.0"
edition = "2021"
publish = false

[dependencies]
url = "*"
serde_json = "*"
reqwest = { version = "*", default-features = false }
tokio = { version = "*", features = ["macros", "rt-multi-thread"] }
chrono = "*"
log = "*"
env_logger = "*"

[dev-dependencies]
percent-encoding = "*"
