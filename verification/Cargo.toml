[package]
name = "ypdddns"
version = "0.1.0"
edition = "2021"
publish = false

[dependencies]
env_logger = "0.10"
failure = "0.1"
log = "0.4"
reqwest = { version = "0.11", default-features = false, features = ["blocking", "json", "rustls-tls"] }
serde = { version = "1", features = ["derive"] }
structopt = "0.3"
