[package]
name = "aether"
version = "1.2.1"
edition = "2021"
publish = false

[dependencies]
serde_json = "=1.0.151"
rand = "=0.8.8"
serde = { version = "1", features = ["derive"] }
clap = { version = "4", features = ["derive"] }
tokio = { version = "1", features = ["rt-multi-thread", "macros", "time", "signal"] }
reqwest = { version = "0.12", default-features = false, features = ["json"] }
flate2 = "1"
tar = "0.4"
chrono = { version = "0.4", features = ["serde"] }
uuid = { version = "1", features = ["v4", "serde"] }
aws-config = { version = "1", default-features = false }
aws-sdk-s3 = { version = "1", default-features = false }
