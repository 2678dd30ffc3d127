[package]
name = "phone_a_friend"
version = "0.1.0"
edition = "2021"
publish = false

[dependencies]
litrs = "*"
serde_json = "*"
reqwest = { version = "*", default-features = false, features = ["json"] }
tokio = { version = "*", features = ["rt-multi-thread", "time"] }
