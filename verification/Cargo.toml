[package]
name = "supergfxctl"
version = "5.2.7"
edition = "2021"
publish = false

[dependencies]
zbus = "5"
logind-zbus = "5"
tokio = { version = "1", features = ["macros", "rt-multi-thread", "time"] }
futures-util = "0.3"
udev = "0.9"
serde = { version = "1", features = ["derive"] }
serde_json = "1"
log = "0.4"
env_logger = "0.11"
gumdrop = "0.8"
