[package]
name = "headlines"
version = "0.1.0"
edition = "2021"
publish = false

[dependencies]
eframe = { version = "=0.22.0", default-features = false, features = ["glow", "persistence"] }
serde = { version = "=1.0.229", features = ["derive"] }
serde_json = "1"
tracing = "=0.1.44"
tracing-subscriber = "=0.3.23"
ureq = { version = "2", default-features = false }
