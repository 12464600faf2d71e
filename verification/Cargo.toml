[package]
name = "vectadb"
version = "0.1.0"
edition = "2021"
publish = false

[dependencies]
nanoid = "=0.4.0"
uuid = { version = "=1.29.0", features = ["v4"] }
chrono = { version = "=0.4.45", features = ["serde"] }
serde = { version = "=1.0.229", features = ["derive"] }
serde_json = "=1.0.154"
serde_yaml = "0.9"
anyhow = "=1.0.104"
thiserror = "1"
async-trait = "=0.1.92"
tokio = { version = "=1.54.1", features = ["rt-multi-thread", "macros", "sync", "net", "time", "signal"] }
axum = "=0.7.9"
tower-http = { version = "=0.5.2", features = ["cors", "trace"] }
tracing = "=0.1.44"
tracing-subscriber = { version = "=0.3.23", features = ["env-filter"] }
dotenvy = "0.15"
reqwest = { version = "=0.12.28", default-features = false, features = ["json"] }
regex = "=1.13.1"
aws-config = { version = "1", default-features = false, features = ["behavior-version-latest", "rt-tokio"] }
aws-sdk-cloudwatchlogs = { version = "1", default-features = false, features = ["behavior-version-latest", "rt-tokio"] }
