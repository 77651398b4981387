[package]
name = "aingle_wasm"
version = "0.1.0"
edition = "2021"
publish = false

[dependencies]
crc32fast = "=1.5.2"
wasmer = "=4.4.0"
wasmer-middlewares = "=4.4.0"
rmp-serde = "=1.3.1"
serde = { version = "=1.0.229", features = ["derive"] }
serde_bytes = "=0.11.19"
parking_lot = "=0.12.5"
