[package]
name = "spacemouse_bridge"
version = "0.1.0"
edition = "2021"
publish = false

[dependencies]
serde_json = "1"
tokio = { version = "1", features = ["full"] }
tokio-tungstenite = "*"
futures = "0.3"
futures-util = "0.3"
spacenav-plus = "*"
log = "0.4"
env_logger = "*"
