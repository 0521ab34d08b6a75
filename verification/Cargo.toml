[package]
name = "vigilance"
version = "0.1.0"
edition = "2021"
publish = false

[dependencies]
battery = "*"
dbus = "*"
serde = { version = "1", features = ["derive"] }
serde_yml = "*"
sysinfo = "*"
thiserror = "*"
