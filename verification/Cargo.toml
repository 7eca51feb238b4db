[package]
name = "aisdk"
version = "0.1.0"
edition = "2021"
publish = false

[dependencies]
serde_json = "1"
uuid = { version = "1", features = ["v4"] }
serde = { version = "1", features = ["derive"] }
reqwest = { version = "0.12", default-features = false, features = ["stream"] }
reqwest-eventsource = "0.6"
tokio = { version = "1", features = ["rt", "sync", "time", "macros"] }
futures = "0.3"
async-trait = "0.1"
