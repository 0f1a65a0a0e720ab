[package]
name = "modular-agent-mattermost"
version = "0.1.0"
edition = "2021"
publish = false

[dependencies]
chrono = "=0.4.45"
futures-util = "=0.3.34"
im = "=15.1.0"
modular-agent-core = "=0.23.2"
reqwest = { version = "=0.12.28", default-features = false, features = ["json", "multipart", "rustls-tls"] }
serde = { version = "=1.0.229", features = ["derive"] }
serde_json = { version = "=1.0.154", features = ["float_roundtrip"] }
tokio = { version = "=1.54.1", features = ["rt-multi-thread", "macros", "sync", "time", "net"] }
tokio-tungstenite = { version = "=0.28.0", features = ["rustls-tls-webpki-roots"] }
tracing = "=0.1.44"
url = "=2.5.8"
