[package]
name = "shirodl"
version = "0.1.0"
edition = "2021"
publish = false

[dependencies]
blake3 = "*"
reqwest = { version = "*", default-features = false }
tokio = { version = "*", default-features = false, features = ["rt-multi-thread", "sync"] }
