[package]
name = "pioneer"
version = "0.1.0"
edition = "2021"
publish = false
rust-version = "1.95"

[dependencies]
bevy = { version = "=0.19.1", default-features = false }
mcubes = "=0.1.7"
noise = "=0.9.0"
ron = "=0.12.3"
serde = { version = "=1.0.229", features = ["derive"] }
thiserror = "=2.0.21"
tracing = "=0.1.44"
