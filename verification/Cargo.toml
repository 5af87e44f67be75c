[package]
name = "booper"
version = "0.1.0"
edition = "2021"
publish = false

[dependencies]
regex = "1"
semver = "1"
clap = { version = "4", features = ["derive"] }
dialoguer = "0.11"
