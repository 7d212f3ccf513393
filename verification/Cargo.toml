[package]
name = "fluxlock"
version = "0.1.0"
edition = "2021"
publish = false

[dependencies]
pqcrypto-dilithium = "0.5"
pqcrypto-traits = "0.3"
base64 = "0.22"
serde = { version = "1", features = ["derive"] }
serde_json = "1"
axum = "0.7"
tokio = { version = "1", features = ["full"] }
tower-http = { version = "0.5", features = ["cors"] }
