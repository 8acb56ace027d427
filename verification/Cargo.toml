[package]
name = "zarigani"
version = "0.1.0"
edition = "2021"
publish = false

[dependencies]
actix = "=0.13.5"
anyhow = "=1.0.104"
rig-core = "=0.32.0"
serde = { version = "=1.0.229", features = ["derive"] }
thiserror = "=2.0.21"
toml = "=0.8.23"
tracing = "=0.1.44"
tracing-subscriber = { version = "=0.3.23", features = ["env-filter"] }
