[package]
name = "eshara"
version = "0.1.0"
edition = "2021"
publish = false

[dependencies]
chrono = "=0.4.45"
dirs = "=7.0.0"
ctrlc = "=3.5.2"
serde = { version = "*", features = ["derive"] }
serde_json = "*"
