[package]
name = "beebotos_agents"
version = "0.1.0"
edition = "2021"
publish = false

[dependencies]
uuid = { version = "=1.29.1", features = ["v4"] }
chrono = { version = "=0.4.45", default-features = false, features = ["clock", "std"] }
regex = "=1.13.1"
serde = { version = "=1.0.229", features = ["derive"] }
serde_json = "=1.0.154"
tokio = { version = "=1.54.1", features = ["sync", "rt", "macros", "time", "process", "io-util", "fs"] }
urlencoding = "=2.1.3"
serde_yaml = "=0.9.34"
reqwest = { version = "0.12", default-features = false, features = ["json"] }
async-trait = "0.1"
