[package]
name = "light_client_commons"
version = "0.1.0"
edition = "2021"
publish = false

[dependencies]
anyhow = "1"
clap = { version = "4", features = ["derive", "cargo"] }
hex = "0.4"
libp2p = { version = "0.53", default-features = false }
rocksdb = { version = "0.21", default-features = false }
sp-core = "28"
tokio = { version = "1", features = ["rt", "sync", "macros"] }
tracing = "0.1"
tracing-subscriber = { version = "0.3", features = ["json"] }
