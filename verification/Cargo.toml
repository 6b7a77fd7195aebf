[package]
name = "emed_core"
version = "0.1.0"
edition = "2021"
publish = false

[dependencies]
ropey = { version = "1.6", default-features = false }
unicode-width = "*"
clap = { version = "*", features = ["derive"] }
config = { version = "*", default-features = false, features = ["toml"] }
crossterm = "*"
