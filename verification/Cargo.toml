[package]
name = "rport"
version = "0.1.0"
edition = "2021"
publish = false

[dependencies]
rustls = { version = "0.23", default-features = false, features = ["ring", "std", "tls12", "logging"] }
rustls-pemfile = "2"
tokio-rustls = { version = "0.26", default-features = false, features = ["ring", "tls12", "logging"] }
tokio = { version = "1", features = ["net", "io-util", "rt-multi-thread", "macros"] }
clap = { version = "4", features = ["derive"] }
env_logger = "0.11"
log = "0.4"
