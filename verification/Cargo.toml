[package]
name = "urlprobe"
version = "0.1.0"
edition = "2021"
publish = false

[dependencies]
argh = "0.1"
futures = "0.3"
human-panic = "2"
reqwest = "0.12"
tokio = { version = "1", features = ["macros", "rt-multi-thread"] }
