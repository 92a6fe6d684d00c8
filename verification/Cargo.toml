[package]
name = "quest_admin"
version = "0.1.0"
edition = "2021"
publish = false

[dependencies]
axum = "=0.8.9"
mongodb = "=3.9.1"
serde = { version = "=1.0.229", features = ["derive"] }
serde_json = "=1.0.151"
starknet-core = "=0.16.0"
tokio = { version = "=1.53.2", features = ["full"] }
