[package]
name = "obs_engine"
version = "0.1.0"
edition = "2021"
publish = false

[dependencies]
core-foundation = "*"
derivative = "*"
dirs = "*"
obs-wrapper = "*"
raw-window-handle = "0.6"
serde = { version = "1", features = ["derive"] }
serde_json = "1"
serde_repr = "*"
thiserror = "*"
tracing = "*"
tracing-subscriber = "*"
uuid = { version = "1", features = ["serde"] }
