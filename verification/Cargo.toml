[package]
name = "sync-clip"
version = "0.1.0"
edition = "2021"
publish = false

[dependencies]
arboard = "3"
axum = { version = "0.8", features = ["ws"] }
base64 = "0.22"
chacha20poly1305 = "0.10"
clap = { version = "4", features = ["derive"] }
data-encoding = "2"
dirs = "*"
futures-util = "0.3"
hex = "0.4"
hkdf = "0.12"
image = { version = "0.25", default-features = false, features = ["png"] }
rand = "0.8"
serde = { version = "1", features = ["derive"] }
serde_json = "1"
sha2 = "0.10"
thiserror = "2"
tokio = { version = "1", features = ["full"] }
tokio-tungstenite = "*"
tracing = "0.1"
uuid = { version = "1", features = ["v4"] }

[dev-dependencies]
ciborium = "0.2"
