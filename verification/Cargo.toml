[package]
name = "tui_scheduler"
version = "0.1.0"
edition = "2021"
publish = false

[dependencies]
chrono = { version = "=0.4.45", features = ["serde"] }
crossterm = "=0.25.0"
dict = "=0.1.5"
home = "=0.5.12"
serde = { version = "=1.0.229", features = ["derive"] }
serde_json = "=1.0.151"
tui = "=0.19.0"
