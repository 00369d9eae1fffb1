[package]
name = "checklist"
version = "0.1.0"
edition = "2021"
publish = false

[dependencies]
chrono = { version = "0.4", features = ["serde"] }
cron = "0.12"
serde = { version = "1", features = ["derive"] }
serde_json = "1"
config = "0.13"
log = "0.4"
env_logger = "0.10"
eframe = "0.19"
egui = "0.19"
