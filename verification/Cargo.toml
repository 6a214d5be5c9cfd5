[package]
name = "bsvrpc"
version = "0.1.0"
edition = "2021"
publish = false

[dependencies]
serde_json = "=1.0.151"
serde = "*"
anyhow = "*"
bitcoinsv = "*"
bitcoinsv-rpc = "=1.0.5"
clap = { version = "*", features = ["derive"] }

[dev-dependencies]
hex = "=0.4.3"
