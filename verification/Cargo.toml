[package]
name = "gyroflow_plugin_base"
version = "0.1.0"
edition = "2021"
publish = false

[dependencies]
lru = "=0.12.5"
fastrand = "=2.5.0"
parking_lot = "=0.12.5"
png = "=0.17.16"
regex = "=1.13.1"
bincode = "=1.3.3"
serde = { version = "=1.0.229", features = ["derive"] }
serde_json = "=1.0.154"
log = "=0.4.34"
rfd = "*"
simplelog = "*"
log-panics = "*"
mimalloc = "*"
cstr = "*"
