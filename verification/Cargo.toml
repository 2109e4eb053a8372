[package]
name = "proxy_core"
version = "0.1.0"
edition = "2021"
publish = false

[dependencies]
mobc-redis = "=0.9.0"
redis = "=0.28.2"
serde = { version = "=1.0.229", features = ["derive"] }
serde_yaml = "=0.9.34"
warp = { version = "=0.4.3", features = ["server"] }

[dev-dependencies]
tokio = { version = "=1.54.1", features = ["rt", "time"] }
