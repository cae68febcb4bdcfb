[package]
name = "clepsydra"
version = "0.1.0"
edition = "2021"
publish = false

[dependencies]
prometheus = { version = "0.13", default-features = false }
anyhow = "1"
axum = { version = "0.7", features = ["ws"] }
chrono = "0.4"
clickhouse = { version = "0.12", default-features = false }
futures-util = "0.3"
once_cell = "1"
parking_lot = "0.12"
rayon = "1"
rumqttc = { version = "0.24", default-features = false }
serde = { version = "1", features = ["derive"] }
serde_json = "1"
tokio = { version = "1", features = ["full"] }
tower-http = { version = "0.5", features = ["cors"] }
tracing = "0.1"
tracing-subscriber = { version = "0.3", features = ["env-filter", "fmt"] }
uuid = { version = "1", features = ["v4"] }
