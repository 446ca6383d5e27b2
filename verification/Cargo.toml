[package]
name = "debian_bridge_core"
version = "0.1.0"
edition = "2021"
publish = false

[dependencies]
clap = "=2.34.0"
colorful = "=0.2.2"
dirs = "=2.0.2"
futures-util = "=0.3.34"
log = "=0.4.34"
pretty_env_logger = "=0.4.0"
serde = { version = "=1.0.229", features = ["derive"] }
serde_json = "=1.0.154"
shiplift = { version = "=0.7.0", default-features = false, features = ["unix-socket"] }
tokio = { version = "=1.54.1", features = ["rt", "net", "time"] }
xdg = "=2.5.2"
