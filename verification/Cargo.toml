[package]
name = "web_rwkv_ffi"
version = "0.1.0"
edition = "2021"
publish = false

[dependencies]
anyhow = "*"
cbor4ii = { version = "*", features = ["serde1", "use_std"] }
fastrand = "*"
half = "*"
itertools = "*"
log = "*"
memmap2 = "*"
safetensors = "=0.4.5"
serde = { version = "=1.0.210", features = ["derive"] }
simple_logger = "*"
tokio = { version = "*", features = ["full"] }
web-rwkv = "=0.9.6"
