[package]
name = "rabbitmq"
version = "0.1.0"
edition = "2021"
publish = false

[dependencies]
bytes = "1"
futures = "0.1"
tokio-core = "0.1"
libc = "0.2"
config = "0.9"
serde = { version = "1", features = ["derive"] }
parking_lot = "0.12"
log = "0.4"
