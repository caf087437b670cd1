[package]
name = "boobar"
version = "0.1.0"
edition = "2021"
publish = false

[dependencies]
rhai = "*"
clap = { version = "*", features = ["derive"] }
serde = { version = "*", features = ["derive"] }
toml = "*"
