[package]
name = "gufo_agent"
version = "0.1.0"
edition = "2021"
publish = false

[dependencies]
rand = "0.8"
regex = "1"
tokio = { version = "1", features = ["full"] }
warp = "0.3"
serde = { version = "1", features = ["derive"] }
serde_yaml = "0.9"
clap = { version = "4", features = ["derive"] }
log = "0.4"
env_logger = "0.10"
gethostname = "0.4"
systemstat = "0.2"
async-trait = "0.1"
reqwest = { version = "0.11", default-features = false, features = ["gzip"] }
bytes = "1"
