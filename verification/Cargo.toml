[package]
name = "clipboard_next"
version = "0.1.0"
edition = "2021"
publish = false

[dependencies]
clipboard-rs = "*"
parking_lot = "*"
serde = { version = "*", features = ["derive"] }
