[package]
name = "spectro_rs"
version = "0.2.0"
edition = "2021"
publish = false

[dependencies]
rusb = "0.9"
serde = { version = "1", features = ["derive"] }
serde_json = "1"
directories = "*"
