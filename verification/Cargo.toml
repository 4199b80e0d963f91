[package]
name = "feed_me_bits"
version = "0.1.0"
edition = "2021"
publish = false

[dependencies]
rusb = { version = "*", features = ["vendored"] }
tokio = { version = "*", default-features = false, features = ["sync", "rt-multi-thread", "macros"] }
