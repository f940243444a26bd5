[package]
name = "cargo_app"
version = "0.1.0"
edition = "2021"
publish = false

[dependencies]
uuid = { version = "=1.29.0", features = ["v4"] }
serde = { version = "=1.0.229", features = ["derive"] }
serde_json = "=1.0.154"
thiserror = "=2.0.21"
log = "=0.4.35"
async-channel = "=2.5.0"
async-trait = "=0.1.92"
tokio = { version = "=1.54.1", features = ["rt-multi-thread", "fs", "io-util", "sync"] }
gtk4 = { version = "=0.10.3", features = ["v4_16"] }
libadwaita = { version = "=0.8.1", features = ["v1_6"] }
gettext-rs = { version = "=0.7.7", features = ["gettext-system"] }
libsecret = "=0.7.0"
russh = "=0.65.0"
russh-sftp = "=2.1.2"
suppaftp = { version = "=8.0.5", features = ["tokio-rustls-aws-lc-rs"] }
