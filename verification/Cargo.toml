[package]
name = "payjoin_receiver"
version = "0.1.0"
edition = "2021"
publish = false

[dependencies]
anyhow = "*"
bitcoin = "*"
payjoin = { version = "*", features = ["v2", "io"] }
reqwest = { version = "*", default-features = false }
tokio = { version = "*", features = ["rt", "rt-multi-thread", "macros"] }
tracing = "*"
