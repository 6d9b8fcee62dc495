[package]
name = "flagpole"
version = "0.1.0"
edition = "2021"
publish = false

[dependencies]
axum = { version = "0.6", features = ["headers"] }
clap = { version = "4", features = ["derive", "env"] }
env_logger = "*"
http = "0.2"
log = "0.4"
redis = "*"
serde = { version = "1", features = ["derive"] }
serde_json = "1"
sha2 = "0.10"
tokio = { version = "1", features = ["macros", "rt-multi-thread"] }
