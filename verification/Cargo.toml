[package]
name = "systemstats"
version = "0.1.0"
edition = "2021"
publish = false

[dependencies]
serde = { version = "*", features = ["derive"] }
toml = "*"
dirs = "*"
log = "*"
fern = "*"
systemd-journal-logger = "*"
sysinfo = "*"
