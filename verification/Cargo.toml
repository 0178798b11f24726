[package]
name = "rcronic"
version = "0.1.0"
edition = "2021"
publish = false

[dependencies]
clap = { version = "4", features = ["derive"] }
duct = "0.13"
log = "0.4"
simplelog = "0.12"
