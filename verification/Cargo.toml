[package]
name = "lzzzz"
version = "0.1.0"
edition = "2021"
publish = false

[dependencies]
lz4 = "*"
lz4-sys = "*"
lz4_flex = "*"
libc = "0.2"
futures-lite = "*"
pin-project = "1"
tokio = { version = "1", features = ["io-util"] }
async-std = "1"
