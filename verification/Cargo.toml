[package]
name = "linux_stat"
version = "0.1.0"
edition = "2021"
publish = false

[dependencies]
atoi = "2"
linux-syscalls = "*"
ureq = "2"
serde = { version = "1", features = ["derive"] }
serde_json = "1"
color-eyre = "0.6"

[dev-dependencies]
linux-raw-sys = "*"
