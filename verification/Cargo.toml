[package]
name = "dragon"
version = "0.1.0"
edition = "2021"
publish = false

[dependencies]
argon2 = "=0.6.0"
base64 = "=0.23.1"
data-encoding = "=2.11.1"
hmac = "=0.13.0"
jsonwebtoken = { version = "=11.1.0", features = ["rust_crypto"] }
rand = "=0.10.3"
serde_json = "=1.0.151"
sha1 = "=0.11.0"
uuid = { version = "=1.27.0", features = ["v4"] }
