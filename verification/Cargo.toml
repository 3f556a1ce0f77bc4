[package]
name = "zrb"
version = "0.1.0"
edition = "2021"
publish = false

[dependencies]
serde = { version = "1", features = ["derive"] }
bincode = "1"
chrono = "0.4"
zstd = "*"
age = "*"
blake3 = "*"
sha2 = "*"
