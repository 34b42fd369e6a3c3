[package]
name = "wasmbus_handler"
version = "0.1.0"
edition = "2021"
publish = false

[dependencies]
anyhow = "*"
async-nats = "*"
bytes = "*"
secrecy = "*"
tokio = { version = "*", features = ["rt", "io-util", "sync", "time", "macros"] }
tracing = "*"
