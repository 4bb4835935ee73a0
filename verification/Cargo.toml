[package]
name = "autosleep"
version = "0.1.0"
edition = "2021"
publish = false

[dependencies]
crossbeam-channel = "0.5"
log = "0.4"
anyhow = "1"
env_logger = "*"
windows-service = "*"
windows-sys = { version = "*", features = ["Win32_Foundation", "Win32_System_Power"] }
