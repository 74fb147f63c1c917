[package]
name = "drive_ocr"
version = "0.1.0"
edition = "2021"
publish = false

[dependencies]
anyhow = "=1.0.104"
async-channel = "=2.5.0"
async-trait = "=0.1.92"
camino = { version = "=1.2.6", features = ["serde1"] }
clap = { version = "=4.6.7", features = ["derive", "env"] }
color-eyre = "=0.6.5"
dotenvy = "=0.15.7"
google-drive3 = "=5.0.5"
hex = "=0.4.3"
hmac = "=0.12.1"
jwt = "=0.16.0"
mime = "=0.3.17"
opentelemetry = { version = "=0.20.0", features = ["metrics", "rt-tokio"] }
opentelemetry-otlp = { version = "=0.13.0", features = ["metrics"] }
redis = "=1.8.0"
reqwest = { version = "=0.11.27", default-features = false, features = ["rustls-tls", "stream"] }
rsmq_async = "=18.0.0"
serde = { version = "=1.0.229", features = ["derive"] }
serde_json = "=1.0.154"
sha2 = "=0.10.9"
tempfile = "=3.27.0"
tokio = { version = "=1.54.1", features = ["full"] }
tokio-util = "=0.7.20"
tracing = "=0.1.44"
tracing-error = "=0.2.1"
tracing-opentelemetry = "=0.21.0"
tracing-subscriber = { version = "=0.3.23", features = ["env-filter"] }
url = { version = "=2.5.8", features = ["serde"] }
uuid = { version = "=1.29.0", features = ["v7", "serde"] }
warp = "=0.3.7"
