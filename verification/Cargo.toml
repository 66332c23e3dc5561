[package]
name = "hive_status"
version = "0.1.0"
edition = "2021"
publish = false

[dependencies]
axum = "*"
http = "*"
reqwest = { version = "*", default-features = false }
serde = { version = "*", features = ["derive"] }
serde_json = "*"
tokio = { version = "*", features = ["rt-multi-thread", "macros", "net"] }
tower-http = { version = "*", features = ["fs"] }
tracing = "*"
tracing-subscriber = "*"
