[package]
name = "vexar"
version = "0.1.0"
edition = "2021"
publish = false

[dependencies]
serde = { version = "1", features = ["derive"] }
serde_json = "1"
sysinfo = "*"
winapi = { version = "0.3", features = ["wininet"] }
