[package]
name = "buzz"
version = "0.1.0"
edition = "2021"
publish = false

[dependencies]
anyhow = "1"
axum = { version = "0.8", features = ["ws"] }
base64 = "=0.22.1"
chrono = "=0.4.45"
futures-util = "=0.3.34"
nostr = { version = "=0.44.8", features = ["std", "nip59"] }
rand = "=0.9.5"
reqwest = { version = "0.12", default-features = false }
rustls = { version = "0.23", features = ["aws-lc-rs"] }
serde = { version = "1", features = ["derive"] }
serde_json = "=1.0.154"
sha2 = "=0.10.9"
sqlx = { version = "0.8", default-features = false, features = ["chrono", "postgres", "runtime-tokio", "uuid"] }
ssstretch = "=0.1.0"
thiserror = "2"
tokio = { version = "=1.54.1", features = ["macros", "net", "rt-multi-thread", "sync", "time"] }
tokio-tungstenite = { version = "=0.29.0", features = ["rustls-tls-native-roots"] }
tokio-util = "=0.7.20"
tracing = "0.1"
url = "=2.5.8"
uuid = { version = "=1.29.0", features = ["v4"] }
