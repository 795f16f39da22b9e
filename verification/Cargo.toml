[package]
name = "esp_agent"
version = "0.1.0"
edition = "2021"
publish = false

[dependencies]
sha2 = "=0.10.9"
hex = "=0.4.3"
base64 = "=0.22.1"
p256 = { version = "=0.13.2", features = ["ecdsa"] }
rand_core = { version = "=0.6.4", features = ["getrandom"] }
uuid = { version = "=1.29.0", features = ["v4"] }
serde_json = "=1.0.154"
log = "=0.4.35"
regex = "1"
