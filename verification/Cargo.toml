[package]
name = "keybear"
version = "0.1.0"
edition = "2021"
publish = false

[dependencies]
actix-storage = { version = "=0.2.0", features = ["serde-json"] }
actix-storage-sled = "=0.2.0"
actix-web = "=3.3.3"
anyhow = "=1.0.104"
base64 = "=0.13.1"
chacha20poly1305 = "=0.7.1"
chbs = "=0.1.1"
clap = "=4.6.7"
futures = "=0.3.34"
log = "=0.4.34"
rand = "=0.7.3"
serde = { version = "=1.0.229", features = ["derive"] }
serde_json = "=1.0.154"
syslog = "=7.0.0"
toml = "=1.1.8"
uuid = { version = "0.8", features = ["v4"] }
x25519-dalek = "=1.2.0"
