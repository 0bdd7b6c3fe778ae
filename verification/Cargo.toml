[package]
name = "met"
version = "0.1.0"
edition = "2021"
publish = false

[dependencies]
anyhow = "=1.0.104"
dirs = "=7.0.0"
keyring-core = "=1.0.1"
mime = "=0.3.17"
mimetype-detector = "=0.3.13"
mimalloc = "=0.1.52"
promkit = { version = "=0.10.0", features = ["checkbox", "confirm"] }
promkit-derive = "=0.2.0"
rand = "=0.9.5"
serde = { version = "=1.0.229", features = ["derive"] }
serde_json = "=1.0.154"
tokio = { version = "=1.54.1", features = ["rt-multi-thread", "macros", "fs", "sync", "time", "io-util"] }
tokio-stream = "=0.1.19"
tracing = "=0.1.44"
tracing-core = "=0.1.36"
tracing-subscriber = "=0.3.23"
zeroize = "=1.9.1"
