[package]
name = "term_bridge"
version = "0.1.0"
edition = "2021"
publish = false

[dependencies]
tokio = { version = "*", features = ["full"] }
axum = { version = "*", features = ["ws"] }
futures-util = "*"
