[package]
name = "sidtime"
version = "0.1.0"
edition = "2021"
publish = false

[dependencies]
anyhow = "*"
chrono = "*"
chrono-tz = "*"
clap = { version = "*", features = ["derive"] }
console = "*"
tzf-rs = "*"
