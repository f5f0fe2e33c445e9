[package]
name = "moonshine_processor"
version = "0.1.0"
edition = "2021"
publish = false

[dependencies]
chrono = "*"
tokio = { version = "*", features = ["rt-multi-thread", "macros", "net", "io-util", "time", "signal", "sync"] }
reqwest = { version = "*", default-features = false, features = ["json"] }
serde = { version = "*", features = ["derive"] }
async-channel = "*"
deadpool = { version = "*", features = ["managed", "rt_tokio_1"] }
axum = "*"
log = "*"
env_logger = "*"
