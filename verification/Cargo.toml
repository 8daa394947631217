[package]
name = "node_gateway"
version = "0.1.0"
edition = "2021"
publish = false

[dependencies]
anyhow = "1"
bitcoin = "=0.30.3"
clap = { version = "4", features = ["derive"] }
http-body-util = "0.1"
hyper = { version = "1", features = ["http1", "server"] }
hyper-util = { version = "0.1", features = ["tokio"] }
ldk-node = "=0.3.0"
lightning = "=0.0.123"
lightning-invoice = "=0.31.0"
lightning-liquidity = "=0.1.0-alpha.4"
prost = "=0.11.9"
reqwest = { version = "0.11", default-features = false, features = ["rustls-tls"] }
serde = { version = "1", features = ["derive"] }
serde_json = "1"
tokio = { version = "1", features = ["full"] }
