[package]
name = "classwork"
version = "0.1.0"
edition = "2021"
publish = false

[dependencies]
chrono = "*"
fuzzydate = "*"
serde = { version = "*", features = ["derive"] }
serde_json = "*"
tokio = { version = "*", features = ["macros", "rt-multi-thread"] }
futures = "*"
google-classroom1 = "*"
dirs = "*"
