[package]
name = "os_kit"
version = "0.1.0"
edition = "2021"
publish = false

[dependencies]
auto-launch = "*"
dirs = "*"
serde = { version = "*", features = ["derive"] }
serialport = { version = "*", default-features = false }
sysinfo = "*"
