[package]
name = "bevy_veilid"
version = "0.1.0"
edition = "2021"
publish = false

[dependencies]
anyhow = "1.0.104"
bevy = { version = "*", default-features = false }
bevy-tokio-tasks = "*"
copypasta = "0.10.2"
serde = { version = "1.0.229", features = ["derive"] }
uuid = { version = "1.27.0", features = ["v4"] }
