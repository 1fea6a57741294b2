[package]
name = "eyeclipse"
version = "0.1.0"
edition = "2021"
publish = false

[dependencies]
anyhow = "1"
dirs = "5"
env_logger = { version = "0.11", default-features = false }
global-hotkey = "0.6"
image = { version = "0.25", default-features = false, features = ["png"] }
log = "0.4"
reqwest = { version = "0.12", default-features = false, features = ["json", "rustls-tls"] }
serde = { version = "1", features = ["derive"] }
serde_json = "1"
tokio = { version = "1", features = ["rt-multi-thread", "time"] }
toml = "0.8"
x11rb = "0.13"
