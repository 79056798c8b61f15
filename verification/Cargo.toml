[package]
name = "peggy_relay"
version = "0.1.0"
edition = "2021"
publish = false

[dependencies]
clarity = "=1.7.0"
deep_space = "=2.33.1"
log = "0.4"
num256 = "=0.6.0"
serde = { version = "1.0", features = ["derive"] }
serde_json = "1.0"
sha3 = "=0.12.0"
web30 = "=1.15.0"
