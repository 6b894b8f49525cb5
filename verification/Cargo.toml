[package]
name = "agent"
version = "0.1.0"
edition = "2021"
publish = false

[dependencies]
bollard = "0.18"
reqwest = "0.12"
serde_json = "1"
tokio = { version = "1", features = ["macros", "rt-multi-thread", "signal", "time"] }
