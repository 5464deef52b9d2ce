[package]
name = "pingo"
version = "0.1.0"
edition = "2021"
publish = false

[dependencies]
aes-gcm = "=0.10.3"
base64 = "=0.22.1"
chrono = "=0.4.45"
crossbeam-channel = "=0.5.17"
dirs = "=5.0.1"
hostname = "=0.4.2"
network-interface = "=2.0.5"
rand = "=0.8.8"
reqwest = { version = "=0.12.28", default-features = false, features = ["blocking"] }
rusqlite = { version = "=0.31.0", features = ["bundled"] }
serde = { version = "=1.0.229", features = ["derive"] }
serde_json = "=1.0.154"
sha2 = "=0.10.9"
socket2 = { version = "=0.5.10", features = ["all"] }
tiny_http = "=0.12.0"
uuid = { version = "=1.29.0", features = ["v4"] }
x25519-dalek = { version = "=2.0.1", features = ["static_secrets"] }
