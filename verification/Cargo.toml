[package]
name = "letui"
version = "0.1.0"
edition = "2021"
publish = false

[dependencies]
crossterm = "*"
serde = { version = "1", features = ["derive"] }
serde_json = "1"
