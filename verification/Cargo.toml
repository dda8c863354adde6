[package]
name = "hpydev"
version = "0.1.0"
edition = "2021"
publish = false

[dependencies]
anyhow = "1"
dialoguer = "0.6"
reqwest = { version = "0.10", features = ["stream"] }
structopt = "0.3"
tokio = { version = "0.2", features = ["full"] }
tracing = "0.1"
tracing-subscriber = "0.2"
url = "2"
