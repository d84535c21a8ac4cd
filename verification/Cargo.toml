[package]
name = "netproxy"
version = "0.1.0"
edition = "2021"
publish = false

[dependencies]
bincode = "1.3"
crossbeam = "0.8"
log = "0.4"
parking_lot = "0.12"
serde = { version = "1", features = ["derive"] }
spin_sleep = "1"
thiserror = "1"
triple_buffer = "*"
