[package]
name = "argusx"
version = "0.1.0"
edition = "2021"
publish = false

[dependencies]
uuid = { version = "1", features = ["v4"] }
serde = { version = "1", features = ["derive"] }
serde_json = "1"
anyhow = "1"
thiserror = "1"
async-trait = "0.1"
futures = "0.3"
tokio = { version = "1", features = ["full"] }
tokio-stream = "0.1"
async-stream = "0.3"
clap = { version = "4", features = ["derive", "env"] }
toml = "0.8"
chrono = "0.4"
reqwest = { version = "0.12", default-features = false, features = ["json", "blocking", "rustls-tls"] }
env_logger = "0.11"
tracing-subscriber = { version = "0.3", features = ["env-filter"] }
tracing-appender = "0.2"
rusqlite = { version = "0.31", features = ["bundled"] }
git2 = { version = "0.19", default-features = false }

[dev-dependencies]
tempfile = "3"
