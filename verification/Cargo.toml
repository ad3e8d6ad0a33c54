[package]
name = "deploy_watch"
version = "0.1.0"
edition = "2021"
publish = false

[dependencies]
serde_json = "*"
chrono = "*"
reqwest = { version = "*", default-features = false }
tokio = { version = "*", features = ["rt-multi-thread", "macros", "time"] }
notify-rust = { version = "*", default-features = false, features = ["z"] }
open = "*"
dotenv = "*"
