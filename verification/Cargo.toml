[package]
name = "runtime_tracing"
version = "0.1.0"
edition = "2021"
publish = false

[dependencies]
base64 = "0.22"
num-derive = "0.4"
num-traits = "0.2"
serde = { version = "1.0", features = ["derive"] }
serde_json = "1.0"
serde_repr = "0.1"
