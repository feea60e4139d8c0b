[package]
name = "nym_client"
version = "0.1.0"
edition = "2021"
publish = false

[dependencies]
futures = "0.3"
tokio = { version = "0.2", features = ["rt-threaded", "time"] }
rand = "0.7"
