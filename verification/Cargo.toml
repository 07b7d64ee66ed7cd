[package]
name = "message_bridge"
version = "0.1.0"
edition = "2021"
publish = false

[dependencies]
serde_json = "=1.0.154"
serde = { version = "1", features = ["derive"] }
thiserror = "2"
tracing = "0.1"
futures = "0.3"
tokio = { version = "1", features = ["rt-multi-thread", "macros"] }
axum = "0.8"
rdkafka = "=0.39.0"
sqlx = { version = "0.8", default-features = false, features = ["postgres", "runtime-tokio", "macros", "migrate"] }
shuttle-axum = "0.57"
shuttle-runtime = "0.57"
shuttle-service = "0.57"
shuttle-shared-db = { version = "0.57", features = ["postgres", "sqlx"] }
