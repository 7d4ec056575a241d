[package]
name = "awesome_lists"
version = "0.1.0"
edition = "2021"
publish = false

[dependencies]
serde_json = "*"
reqwest = { version = "*", default-features = false }
tokio = { version = "*", features = ["rt-multi-thread", "macros", "fs"] }
