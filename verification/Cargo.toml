[package]
name = "arkade_manager"
version = "0.1.0"
edition = "2021"
publish = false

[dependencies]
anyhow = "=1.0.104"
chrono = "=0.4.45"
directories = "=5.0.1"
log = "=0.4.34"
reqwest = { version = "=0.12.28", default-features = false, features = ["json", "rustls-tls"] }
semver = "=1.0.28"
serde = { version = "=1.0.229", features = ["derive"] }
serde_json = "=1.0.154"
simplelog = "=0.12.2"
tokio = { version = "=1.54.1", features = ["rt-multi-thread", "macros", "time", "sync"] }
uuid = { version = "=1.29.0", features = ["v4"] }
walkdir = "=2.5.0"
zip = { version = "=0.6.6", default-features = false, features = ["deflate", "time"] }
