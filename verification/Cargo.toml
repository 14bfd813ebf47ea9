[package]
name = "node_control"
version = "0.1.0"
edition = "2021"
publish = false

[dependencies]
argh = "=0.1.19"
axum = "=0.7.9"
hex-conservative = "=0.2.3"
ldk-node = "=0.3.0"
lightning-liquidity = "=0.1.0-alpha.4"
rand = "=0.8.8"
serde = { version = "=1.0.229", features = ["derive"] }
serde_json = "=1.0.154"
tokio = { version = "=1.54.1", features = ["rt-multi-thread", "net"] }
tracing = "=0.1.44"
tracing-subscriber = "=0.3.23"
