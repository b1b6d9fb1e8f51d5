[package]
name = "ttbench"
version = "0.1.0"
edition = "2021"
publish = false

[dependencies]
anyhow = "1"
crc = "3"
rand = "0.8"
rmp-serde = "1"
serde = { version = "1", features = ["derive"] }
tarantool-rs = "*"
tokio = { version = "1", features = ["rt-multi-thread", "time", "macros"] }
uuid = { version = "1", features = ["v4"] }
