[package]
name = "aether_void_net"
version = "0.1.0"
edition = "2021"
publish = false

[dependencies]
anyhow = "=1.0.104"
bytes = "=1.12.1"
rkyv = "=0.8.18"
tokio = { version = "=1.54.1", features = ["net", "sync", "rt", "macros", "time", "io-util"] }
