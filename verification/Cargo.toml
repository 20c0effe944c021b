[package]
name = "eventsub_client"
version = "0.1.0"
edition = "2021"
publish = false

[dependencies]
serde_json = "=1.0.151"
anyhow = "1"
async-trait = "0.1"
chrono = { version = "0.4", features = ["serde"] }
futures = "0.3"
serde = { version = "1", features = ["derive"] }
tokio = { version = "1", features = ["time", "net", "rt", "macros"] }
tokio-tungstenite = "=0.30.0"
reqwest = { version = "0.12", default-features = false, features = ["json"] }
