[package]
name = "raft_frost"
version = "0.1.0"
edition = "2021"
publish = false

[dependencies]
frost-ed25519 = "2.1.0"
rand = "0.8"
serde = { version = "1.0.218", features = ["derive"] }
serde_json = "1.0.139"
bincode = "1.3.3"
log = "0.4.26"
simplelog = "0.12.2"
socket2 = "0.5.8"
