[package]
name = "deip_client"
version = "0.1.0"
edition = "2021"
publish = false

[dependencies]
anyhow = "1"
clap = { version = "4", default-features = false, features = ["derive", "std", "help", "usage", "error-context"] }
env_logger = { version = "0.11", default-features = false }
futures = "0.3"
log = "0.4"
parity-scale-codec = "3"
subxt = "*"
tokio = { version = "1", features = ["rt-multi-thread", "macros", "fs", "time"] }
