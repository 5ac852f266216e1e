[package]
name = "h2core"
version = "0.1.0"
edition = "2021"
publish = false

[dependencies]
hpack = "*"
memmap2 = "*"
tokio = { version = "*", features = ["rt", "sync", "io-util", "net", "macros", "time"] }
