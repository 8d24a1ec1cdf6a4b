[package]
name = "clarity_types"
version = "0.1.0"
edition = "2021"
publish = false

[dependencies]
clarity-vm = "=2.1.1"
clap = { version = "*", features = ["derive"] }
