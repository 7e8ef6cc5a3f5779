[package]
name = "whisper_cli"
version = "0.1.0"
edition = "2021"
publish = false

[dependencies]
directories = "*"
clap = { version = "*", features = ["derive"] }
tempfile = "*"
