[package]
name = "context_engine"
version = "0.1.0"
edition = "2021"
publish = false

[dependencies]
serde_json = "1"
rust_decimal = "1"
serde = { version = "1", features = ["derive"] }
thiserror = "2"
tracing = "0.1"
async-trait = "0.1"
schemars = "0.8"
