[package]
name = "themql"
version = "0.1.0"
edition = "2021"
publish = false

[dependencies]
blake3 = "=1.8.7"
uuid = { version = "=1.29.0", features = ["v7", "serde"] }
serde = { version = "=1.0.229", features = ["derive"] }
serde_json = "=1.0.154"
bincode = "=1.3.3"
sled = "=0.34.7"
thiserror = "=1.0.69"
nalgebra = "=0.35.0"
embedded-hal-async = "1"
embedded-io-async = "*"
