[package]
name = "nazo_postgres"
version = "0.1.0"
edition = "2021"
publish = false

[dependencies]
aes-gcm = "=0.10.3"
argon2 = "=0.5.3"
base64 = "=0.22.1"
blake3 = { version = "=1.8.7", features = ["pure"] }
sha2 = "=0.10.9"
rand = "=0.9.5"
uuid = { version = "=1.29.0", features = ["v7"] }
serde_json = "=1.0.154"
serde = { version = "=1.0.229", features = ["derive"] }
chrono = { version = "=0.4.45", default-features = false, features = ["clock", "std"] }
