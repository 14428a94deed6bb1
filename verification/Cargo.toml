[package]
name = "deploy"
version = "0.1.0"
edition = "2021"
publish = false

[dependencies]
flexi_logger = "=0.31.10"
indicatif = "=0.17.11"
log = "=0.4.34"
merge = "0.2"
serde = { version = "=1.0.229", features = ["derive"] }
serde_json = "=1.0.154"
shlex = "=1.3.0"
thiserror = "=1.0.69"
tokio = { version = "=1.54.1", features = ["process", "io-util", "rt", "macros"] }
tokio-stream = { version = "=0.1.19", features = ["io-util"] }
