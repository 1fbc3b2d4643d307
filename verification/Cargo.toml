[package]
name = "grok_web_api"
version = "0.1.0"
edition = "2021"
publish = false

[dependencies]
sha2 = "=0.10.9"
base64 = "=0.22.1"
rand = "=0.9.5"
uuid = { version = "=1.29.0", features = ["v4"] }
serde = { version = "=1.0.229", features = ["derive"] }
serde_json = "=1.0.154"
memchr = "=2.8.3"
anyhow = "=1.0.104"
async-stream = "=0.3.6"
axum = "=0.8.9"
bytes = "=1.12.1"
dotenvy = "=0.15.7"
figment = { version = "=0.10.19", features = ["toml", "env"] }
futures = "=0.3.34"
pin-project-lite = "=0.2.17"
thiserror = "=2.0.21"
tokio = { version = "=1.54.1", features = ["full"] }
tower-http = { version = "=0.6.11", features = ["cors", "trace", "compression-gzip"] }
tracing = "=0.1.44"
tracing-subscriber = { version = "=0.3.23", features = ["env-filter"] }
