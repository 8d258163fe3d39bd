[package]
name = "hackerai_desktop"
version = "0.1.0"
edition = "2021"
publish = false

[dependencies]
url = "2"
log = "0.4"
env_logger = "0.11"
tokio = { version = "1", default-features = false, features = ["time"] }
