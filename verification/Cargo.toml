[package]
name = "robochick"
version = "0.1.0"
edition = "2021"
publish = false

[dependencies]
anyhow = "=1.0.104"
aws-config = "1"
aws-sdk-secretsmanager = "1"
axum = "0.8"
fastrand = "=2.5.0"
hex = "=0.4.3"
hmac = "=0.12.1"
lambda_http = "*"
reqwest = { version = "0.12", default-features = false, features = ["json", "rustls-tls"] }
serde = { version = "=1.0.229", features = ["derive"] }
serde_json = "=1.0.154"
sha2 = "=0.10.9"
strfmt = "=0.2.6"
tokio = { version = "1", features = ["macros", "rt-multi-thread", "net"] }
