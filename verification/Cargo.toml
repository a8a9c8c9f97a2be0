[package]
name = "macclaw_panel"
version = "0.1.0"
edition = "2021"
publish = false

[dependencies]
accessibility-sys = "*"
core-foundation = "*"
core-graphics = "*"
dirs = "*"
serde = { version = "*", features = ["derive"] }
serde_json = "*"
