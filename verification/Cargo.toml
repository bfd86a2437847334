[package]
name = "niksi"
version = "0.1.0"
edition = "2021"
publish = false

[dependencies]
serde_json = "1"
clap = { version = "4", features = ["derive"] }
tempfile = "3"
anyhow = "1"
