[package]
name = "sentinel_sidecar"
version = "0.1.0"
edition = "2021"
publish = false

[dependencies]
sentinel-core = "*"
aya = "0.13"
tokio = { version = "1", features = ["full"] }
tonic = "0.12"
prost = "0.13"
tracing = "0.1"
tracing-subscriber = "0.3"
anyhow = "1"
libc = "0.2"
