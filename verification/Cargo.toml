[package]
name = "custom_geyser_plugin"
version = "0.1.0"
edition = "2021"
publish = false

[dependencies]
crossbeam-channel = "*"
mongodb = { version = "*", features = ["sync"] }
serde = { version = "*", features = ["derive"] }
serde_json = "*"
thiserror = "*"
log = "*"
bs58 = "*"
