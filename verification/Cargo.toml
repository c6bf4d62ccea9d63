[package]
name = "spectremesh"
version = "0.1.0"
edition = "2021"
publish = false

[dependencies]
async-channel = "2"
async-trait = "0.1"
num_cpus = "1"
serde = { version = "1", features = ["derive"] }
thiserror = "1"
tokio = { version = "1", features = ["rt", "time", "sync"] }
toml = "0.8"
tracing = "0.1"
