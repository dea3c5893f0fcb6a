[package]
name = "liquidity_watch"
version = "0.1.0"
edition = "2021"
publish = false

[dependencies]
chrono = "0.4"
clap = { version = "4", features = ["derive"] }
colored = "2"
ethers = { version = "=2.0.14", default-features = false, features = ["abigen", "ws"] }
ethers-providers = { version = "=2.0.14", default-features = false, features = ["rustls", "ws"] }
eyre = "0.6"
reqwest = { version = "0.11", default-features = false, features = ["rustls-tls"] }
serde = { version = "1", features = ["derive"] }
serde_json = "1"
tokio = { version = "1", features = ["macros", "rt-multi-thread", "signal", "sync"] }
webhook = "2"
