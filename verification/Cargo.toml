[package]
name = "vaccel"
version = "0.1.0"
edition = "2021"
publish = false

[dependencies]
dashmap = "=6.2.1"
libloading = "=0.9.0"
env_logger = "=0.11.11"
futures = "=0.3.34"
log = "=0.4.34"
mktemp = "=0.5.1"
serde = { version = "=1.0.229", features = ["derive"] }
signal-hook = "=0.4.5"
structopt = "=0.3.26"
tarpc = { version = "=0.38.0", features = ["full"] }
thiserror = "=2.0.21"
tokio = { version = "=1.54.1", features = ["full"] }
tokio-serde = { version = "=0.9.0", features = ["json"] }
tokio-util = { version = "=0.7.20", features = ["codec"] }
tokio-vsock = "=0.7.2"
users = "=0.11.0"
