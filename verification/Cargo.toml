[package]
name = "dnd_stats"
version = "0.1.0"
edition = "2021"
publish = false

[dependencies]
num = "*"
serde = { version = "1", features = ["derive"] }
