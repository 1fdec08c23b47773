[package]
name = "homenode_web"
version = "0.1.0"
edition = "2021"
publish = false

[dependencies]
anyhow = "1"
async-io = "2"
axum = "=0.7.9"
chrono = "=0.4.45"
embassy-futures = "0.1"
embassy-sync = "=0.8.0"
env_logger = "0.11"
futures-lite = "2"
log = "0.4"
rand = "=0.8.8"
reqwest = { version = "=0.12.28", default-features = false, features = ["json"] }
serde = { version = "1", features = ["derive"] }
serde_json = "=1.0.154"
static_cell = "2"
tokio = { version = "=1.54.1", features = ["full"] }
toml = "=0.8.23"
tracing = "0.1"
tracing-subscriber = { version = "0.3", features = ["env-filter"] }
