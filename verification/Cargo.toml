[package]
name = "dash_platform"
version = "0.1.0"
edition = "2021"
publish = false

[dependencies]
async-trait = "=0.1.92"
hex = "=0.4.3"
secp256k1 = "=0.30.0"
serde = { version = "=1.0.229", features = ["derive"] }
tokio = { version = "=1.54.1", features = ["sync", "rt", "time"] }
