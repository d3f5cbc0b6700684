[package]
name = "telegram2photoprism"
version = "0.1.0"
edition = "2021"
rust-version = "1.95"
publish = false

[dependencies]
anyhow = "=1.0.104"
clap = { version = "=4.6.7", features = ["derive", "env"] }
dptree = "=0.3.0"
futures-util = "=0.3.34"
hex = "=0.4.3"
log = "=0.4.34"
pretty_env_logger = "=0.5.0"
rand = "=0.8.8"
reqwest = { version = "=0.11.27", default-features = false, features = ["json", "multipart", "stream", "rustls-tls"] }
rust-i18n = "=3.1.5"
serde = { version = "=1.0.229", features = ["derive"] }
serde_json = "=1.0.154"
sha1 = "=0.10.7"
takecell = "=0.1.1"
teloxide = { version = "=0.12.2", default-features = false, features = ["ctrlc_handler", "throttle", "rustls"] }
thiserror = "=1.0.69"
tokio = { version = "=1.54.1", features = ["rt-multi-thread", "macros", "fs", "sync", "time"] }
tokio-util = { version = "=0.7.20", features = ["codec"] }
