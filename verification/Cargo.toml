[package]
name = "toolcore"
version = "0.1.0"
edition = "2021"
publish = false

[dependencies]
async-trait = "0.1"
serde = { version = "1", features = ["derive"] }
serde_json = "1"
