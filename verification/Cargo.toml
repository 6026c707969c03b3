[package]
name = "maxima"
version = "0.1.0"
edition = "2021"
publish = false

[dependencies]
reqwest = { version = "=0.12.28", features = ["stream"] }
bytes = "=1.12.1"
tokio = { version = "=1.54.1", features = ["fs", "io-util", "sync", "rt", "macros"] }
tokio-util = { version = "=0.7.20", features = ["compat"] }
futures = "=0.3.34"
async-compression = { version = "=0.4.52", features = ["tokio", "deflate"] }
serde = { version = "=1.0.229", features = ["derive"] }
serde_json = "=1.0.154"
strum_macros = "=0.28.0"
anyhow = "=1.0.104"
egui = "=0.37.0"
winres = "=0.1.12"
