[package]
name = "pinepods_api"
version = "0.1.0"
edition = "2021"
publish = false

[dependencies]
argon2 = "=0.6.0"
axum = { version = "=0.8.9", features = ["ws"] }
chrono = "=0.4.45"
futures = "=0.3.34"
redis = { version = "=1.8.1", features = ["tokio-comp", "connection-manager"] }
reqwest = { version = "=0.13.5", features = ["json"] }
serde = { version = "=1.0.229", features = ["derive"] }
serde_json = "=1.0.154"
tokio = { version = "=1.54.1", features = ["sync", "rt", "rt-multi-thread", "macros", "time"] }
tracing = "=0.1.44"
urlencoding = "=2.1.3"
utoipa = { version = "=6.0.0", features = ["axum_extras"] }
