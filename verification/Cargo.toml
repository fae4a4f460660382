[package]
name = "file_opt"
version = "0.1.0"
edition = "2021"
publish = false

[dependencies]
serde_json = "1"
clap = { version = "4", features = ["derive"] }
color-eyre = "0.6"

[dev-dependencies]
tempfile = "3"
