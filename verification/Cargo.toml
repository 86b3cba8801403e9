[package]
name = "pastly"
version = "0.1.0"
edition = "2021"
publish = false

[dependencies]
aes-gcm = "=0.10.3"
axum = "=0.8.9"
base64 = "=0.22.1"
hex = "=0.4.3"
hostname = "=0.4.2"
local-ip-address = "=0.6.13"
mdns-sd = "=0.21.5"
pbkdf2 = "=0.12.2"
reqwest = { version = "=0.13.5", default-features = false, features = ["json"] }
serde = { version = "=1.0.229", features = ["derive"] }
serde_json = "=1.0.151"
sha2 = "=0.10.9"
tokio = { version = "=1.53.2", features = ["full"] }
