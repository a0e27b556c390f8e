[package]
name = "plant_care"
version = "0.1.0"
edition = "2021"
publish = false

[dependencies]
chrono = "*"
critical-section = { version = "*", features = ["std"] }
embassy-sync = "*"
embassy-time = { version = "*", features = ["std"] }
heapless = "*"
serde = { version = "*", features = ["derive"] }
serde_json = "*"
