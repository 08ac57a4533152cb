[package]
name = "proof_jobs"
version = "0.1.0"
edition = "2021"
publish = false

[dependencies]
actix-web = "*"
chrono = "*"
env_logger = "*"
log = "*"
serde = { version = "*", features = ["derive"] }
serde_json = "*"
tokio = { version = "*", features = ["macros", "rt-multi-thread", "sync", "time"] }
uuid = { version = "*", features = ["v4"] }
