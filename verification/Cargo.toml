[package]
name = "zerust"
version = "0.1.0"
edition = "2021"
publish = false

[dependencies]
dashmap = "*"
thiserror = "*"
tokio = { version = "*", default-features = false, features = ["net", "rt-multi-thread", "io-util", "macros"] }
