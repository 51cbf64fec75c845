[package]
name = "rithmic-rs"
version = "0.7.2"
edition = "2021"
publish = false

[dependencies]
prost = "*"
serde = { version = "=1.0.229", features = ["derive"] }
tokio = { version = "=1.54.1", features = ["time"] }
tracing = "=0.1.44"
