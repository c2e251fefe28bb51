[package]
name = "uefi-run"
version = "0.1.0"
edition = "2021"
publish = false

[dependencies]
clap = "2"
ctrlc = { version = "3", features = ["termination"] }
tempfile = "3"
wait-timeout = "0.2"
