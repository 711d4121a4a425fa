[package]
name = "namenotes"
version = "0.1.0"
edition = "2021"
publish = false

[dependencies]
clap = { version = "3.2", features = ["derive"] }
dirs = "4"
serde = { version = "1", features = ["derive"] }
serde_json = "1"
