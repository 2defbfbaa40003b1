[package]
name = "audetic"
version = "0.1.0"
edition = "2021"
publish = false

[dependencies]
anyhow = "1"
arboard = { version = "3", default-features = false }
axum = { version = "0.7", default-features = false, features = ["http1", "json", "tokio"] }
base64 = "=0.22.1"
chrono = { version = "=0.4.45", default-features = false, features = ["clock", "std"] }
cpal = "0.15"
fs2 = "0.4"
futures-util = { version = "0.3", default-features = false, features = ["std", "sink"] }
hound = "3.5"
ksni = { version = "0.3", features = ["blocking"] }
reqwest = { version = "=0.12.28", default-features = false, features = ["blocking", "json", "rustls-tls"] }
serde = { version = "1", features = ["derive"] }
serde_json = "=1.0.154"
tokio = { version = "1", features = ["macros", "net", "rt", "rt-multi-thread", "sync", "time"] }
tokio-stream = { version = "0.1", features = ["sync"] }
tokio-tungstenite = { version = "0.24", features = ["rustls-tls-webpki-roots"] }
toml = "0.8"
tower = { version = "0.5", default-features = false }
tracing = { version = "0.1", default-features = false, features = ["std"] }
uuid = { version = "=1.29.0", features = ["v4"] }
which = "7"
