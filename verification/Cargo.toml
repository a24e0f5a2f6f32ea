[package]
name = "tidepool_gvm"
version = "0.1.0"
edition = "2021"
publish = false

[dependencies]
anyhow = "=1.0.104"
chrono = { version = "=0.4.45", default-features = false, features = ["clock"] }
clap = { version = "=4.6.7", features = ["derive"] }
colored = "=2.2.0"
dirs = "=5.0.1"
env_logger = "=0.11.11"
flate2 = "=1.1.10"
futures = "=0.3.34"
junction = "=1.4.2"
log = "=0.4.35"
reqwest = { version = "=0.12.28", default-features = false, features = ["stream", "rustls-tls"] }
serde = { version = "=1.0.229", features = ["derive"] }
sha2 = "0.10"
tar = "=0.4.46"
thiserror = "=1.0.69"
tokio = { version = "=1.54.1", features = ["macros", "rt-multi-thread", "fs", "io-util", "sync", "time"] }
zip = { version = "=2.6.1", default-features = false, features = ["deflate"] }
