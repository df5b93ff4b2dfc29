[package]
name = "whatsmeow"
version = "0.1.0"
edition = "2021"
publish = false

[dependencies]
aes-gcm = "*"
base64 = "*"
chrono = "*"
clap = { version = "*", features = ["derive"] }
ed25519-dalek = "*"
futures = "*"
hmac = "*"
prost = "*"
qrcode = "*"
rand = "0.8"
serde = { version = "*", features = ["derive"] }
serde_json = "*"
sha2 = "*"
tokio = { version = "*", features = ["rt", "net", "time", "sync", "macros"] }
tokio-tungstenite = "*"
uuid = { version = "*", features = ["v4"] }
x25519-dalek = "*"
