[package]
name = "rm_login"
version = "0.1.0"
edition = "2021"
publish = false

[dependencies]
serde = { version = "1", features = ["derive"] }
serde_json = "1"
sqlx = { version = "0.7", features = ["mysql", "runtime-tokio", "chrono"] }
tokio = { version = "1", features = ["full"] }
tokio-stream = "0.1"
futures = "0.3"
futures-util = "0.3"
warp = "0.3"
log = "0.4"
pretty_env_logger = "0.5"
toml = "0.8"
lazy_static = "1"
rusb = "0.9"
