[package]
name = "se"
version = "0.1.0"
edition = "2021"
publish = false

[dependencies]
dirs = "*"
rustyline = "*"
serde = { version = "*", features = ["derive"] }
serde_json = "*"
