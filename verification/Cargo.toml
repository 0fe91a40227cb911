[package]
name = "token_reader"
version = "0.1.0"
edition = "2021"
publish = false

[dependencies]
revm = { version = "=9.0.0", default-features = false, features = ["std"] }
alloy-sol-types = "0.7"
anyhow = "1"
tokio = { version = "1", features = ["macros", "rt-multi-thread"] }
