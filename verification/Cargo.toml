[package]
name = "cargo-clone"
version = "1.2.0"
edition = "2021"
publish = false

[dependencies]
anyhow = "=1.0.104"
clap = "=4.6.7"
env_logger = "=0.11.11"
flate2 = "=1.1.10"
log = "=0.4.34"
reqwest = { version = "=0.12.28", default-features = false, features = ["blocking", "rustls-tls"] }
semver = "=1.0.28"
serde_json = "=1.0.154"
tar = "=0.4.46"

[dev-dependencies]
regex = "=1.13.1"
