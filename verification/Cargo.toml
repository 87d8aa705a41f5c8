[package]
name = "ffgraph"
version = "0.1.0"
edition = "2021"
publish = false

[dependencies]
flate2 = "=1.1.10"
serde = { version = "=1.0.229", features = ["derive"] }
serde_json = "=1.0.154"
specta = { version = "=2.0.0-rc.22", features = ["derive", "serde", "serde_json"] }
specta-typescript = "=0.0.9"
