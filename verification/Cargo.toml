[package]
name = "bob"
version = "0.1.0"
edition = "2021"
publish = false

[dependencies]
anyhow = "=1.0.104"
clap = "=3.2.25"
dirs = "=4.0.0"
futures-util = "=0.3.34"
indicatif = "0.17"
regex = "=1.13.1"
reqwest = { version = "=0.11.27", default-features = false, features = ["rustls-tls", "stream"] }
serde = { version = "=1.0.229", features = ["derive"] }
serde_json = "=1.0.154"
tokio = { version = "=1.54.1", features = ["full"] }
