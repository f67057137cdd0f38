[package]
name = "rcli"
version = "0.1.0"
edition = "2021"
publish = false

[dependencies]
anyhow = "*"
axum = "*"
base64 = "=0.22.1"
blake3 = "=1.8.7"
chacha20poly1305 = "=0.11.0"
chrono = "=0.4.45"
clap = { version = "*", features = ["derive"] }
csv = "=1.4.0"
ed25519-dalek = "=3.0.0"
jsonwebtoken = { version = "=11.1.0", features = ["rust_crypto"] }
rand = "=0.8.8"
serde = { version = "*", features = ["derive"] }
serde_json = "=1.0.151"
serde_yaml = "=0.9.34"
tokio = { version = "*", features = ["full"] }
tower-http = { version = "*", features = ["fs"] }
tracing = "*"
tracing-subscriber = "*"
zxcvbn = "*"
