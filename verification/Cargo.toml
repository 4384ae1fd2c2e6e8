[package]
name = "pageinfo"
version = "0.1.0"
edition = "2021"
publish = false

[dependencies]
chrono = "=0.4.45"
clap = { version = "=4.6.7", features = ["derive"] }
serde = { version = "=1.0.229", features = ["derive"] }
serde_json = "=1.0.151"
slugify = "=0.1.0"
tokio = { version = "=1.53.2", features = ["rt-multi-thread", "macros"] }
webpage = { version = "=2.0.1", features = ["serde"] }
