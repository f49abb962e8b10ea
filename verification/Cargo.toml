[package]
name = "shy_to_text"
version = "0.1.0"
edition = "2021"
publish = false

[dependencies]
anyhow = "=1.0.104"
dirs = "=7.0.0"
parking_lot = "=0.12.5"
rubato = "=0.14.1"
serde = { version = "=1.0.229", features = ["derive"] }
serde_json = "=1.0.151"
