[package]
name = "watchmymcserver"
version = "0.1.0"
edition = "2021"
publish = false

[dependencies]
anyhow = "*"
chrono = "*"
clap = { version = "*", features = ["derive"] }
ctrlc = "*"
duct = "*"
ron = "*"
serde = { version = "*", features = ["derive"] }
