[package]
name = "rcom_core"
version = "0.1.0"
edition = "2021"
publish = false

[dependencies]
hmac = "0.12"
sha2 = "0.10"
base64 = "0.22"
axum = "0.8"
tokio = { version = "1", features = ["full"] }

[dev-dependencies]
hmac = "0.12"
sha2 = "0.10"
base64 = "0.22"
