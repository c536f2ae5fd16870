[package]
name = "orca_rs"
version = "0.1.0"
edition = "2021"
publish = false

[dependencies]
anyhow = "=1.0.104"
crc = "=3.4.0"
log = "=0.4.34"
rmodbus = "=0.12.2"
serde = { version = "=1.0.229", features = ["derive"] }
tokio = { version = "=1.54.1", features = ["io-util"] }
tokio-serial = "=5.5.0"
