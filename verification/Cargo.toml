[package]
name = "cutroom"
version = "0.1.0"
edition = "2021"
publish = false

[dependencies]
md5 = "0.7"
serde = { version = "1", features = ["derive"] }
serde_json = "1"
tokio = { version = "1", features = ["fs", "io-util", "macros", "process", "rt-multi-thread", "time"] }
