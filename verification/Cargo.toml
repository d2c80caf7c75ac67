[package]
name = "chatty_factory"
version = "0.1.0"
edition = "2021"
publish = false

[dependencies]
anyhow = "1"
chrono = "0.4.45"
egui = { version = "0.27.2", default-features = false }
serde = { version = "1", features = ["derive"] }
serde_json = "1"
