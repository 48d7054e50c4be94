[package]
name = "payment_gateway"
version = "0.1.0"
edition = "2021"
publish = false

[dependencies]
chrono = { version = "0.4", default-features = false, features = ["std", "now", "serde"] }
uuid = { version = "1", features = ["serde"] }
rust_decimal = "1"
serde = { version = "1", features = ["derive"] }
serde_json = "1"
simd-json = "*"
tokio = { version = "1", features = ["full"] }
axum = "*"
tower = { version = "*", features = ["buffer", "limit", "util"] }
reqwest = { version = "*", default-features = false, features = ["json"] }
async-nats = "*"
deadpool-redis = "*"
futures = "0.3"
tracing = "0.1"
tracing-appender = "0.2"
tracing-subscriber = { version = "0.3", features = ["env-filter", "json"] }
console-subscriber = "*"
jemallocator = "*"
