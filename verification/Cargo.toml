[package]
name = "fleet_monitor"
version = "0.1.0"
edition = "2021"
publish = false

[dependencies]
async-stream = "0.3"
axum = "0.7"
byteorder = "1"
chrono = "0.4"
clap = { version = "4", features = ["derive"] }
futures-util = { version = "0.3", features = ["sink"] }
log = "0.4"
prost = "0.12"
redis = { version = "0.27", features = ["tokio-comp"] }
reqwest = { version = "0.11", default-features = false, features = ["json", "rustls-tls"] }
serde = { version = "1", features = ["derive"] }
serde_json = "1"
tokio = { version = "1", features = ["macros", "rt-multi-thread", "sync", "time", "net"] }
tokio-tungstenite = { version = "0.21", features = ["rustls-tls-webpki-roots"] }
tower-http = { version = "0.5", features = ["fs"] }
tracing-subscriber = "0.3"
