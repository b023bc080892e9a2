[package]
name = "openlogi"
version = "0.1.0"
edition = "2021"
publish = false

[dependencies]
anyhow = "=1.0.104"
async-channel = "=2.5.0"
async-hid = "=0.4.4"
bitflags = { version = "=2.13.2", features = ["serde"] }
futures-lite = "=2.6.1"
serde = { version = "=1.0.229", features = ["derive"] }
tokio = { version = "=1.54.1", features = ["rt", "sync"] }
tracing = "=0.1.44"
