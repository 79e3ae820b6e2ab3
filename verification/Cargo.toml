[package]
name = "xdwlan_login"
version = "0.1.0"
edition = "2021"
publish = false

[dependencies]
anyhow = "=1.0.104"
chrono = "=0.4.45"
clap = "=4.6.7"
dirs = "=7.0.0"
env_logger = "=0.11.11"
headless_chrome = "=1.0.15"
log = "=0.4.34"
reqwest = { version = "=0.13.5", default-features = false, features = ["blocking"] }
serde = { version = "=1.0.229", features = ["derive"] }
serde_json = "=1.0.151"
serde_yaml = "=0.9.34"
signal-hook = "=0.4.5"
