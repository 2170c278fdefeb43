[package]
name = "arch_monitor"
version = "0.1.0"
edition = "2021"
publish = false

[dependencies]
sysinfo = { version = "=0.29.11", default-features = false }
