[package]
name = "rumkinst"
version = "0.1.0"
edition = "2021"
publish = false

[dependencies]
anyhow = "=1.0.104"
clap = { version = "=4.6.7", features = ["derive"] }
env_logger = "=0.11.11"
flate2 = "=1.1.10"
hashbrown = "=0.15.5"
indicatif = "=0.18.6"
indicatif-log-bridge = "=0.2.3"
log = "=0.4.34"
nanoid = "=0.4.0"
serde = { version = "=1.0.229", features = ["derive"] }
sha2 = "=0.10.9"
tar = "=0.4.46"
toml = "=0.8.23"
