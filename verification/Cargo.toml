[package]
name = "prodzilla"
version = "0.1.0"
edition = "2021"
publish = false

[dependencies]
rhai = { version = "=1.27.0", features = ["sync"] }
chrono = { version = "=0.4.45", features = ["serde"] }
serde = { version = "=1.0.229", features = ["derive"] }
serde_json = "=1.0.154"
serde_yaml = "0.9"
tokio = { version = "=1.54.1", features = ["rt-multi-thread", "macros", "sync", "time", "net"] }
tokio-util = "=0.7.20"
axum = "=0.7.9"
tower-http = { version = "=0.5.2", features = ["fs"] }
sqlx = { version = "=0.8.6", default-features = false, features = ["runtime-tokio", "sqlite"] }
reqwest = { version = "=0.12.28", default-features = false }
tracing = "=0.1.44"
async-trait = "=0.1.92"
futures = "=0.3.34"
uuid = { version = "=1.29.0", features = ["v4"] }
thiserror = "=1.0.69"
clap = { version = "=4.6.7", features = ["derive"] }
prometheus = { version = "=0.13.4", default-features = false }
