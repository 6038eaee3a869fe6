[package]
name = "wosim"
version = "0.1.0"
edition = "2021"
publish = false

[dependencies]
ash = "0.32"
bincode = "1"
serde = { version = "1", features = ["derive"] }
log = "0.4"
tokio = { version = "1", features = ["sync", "rt", "macros"] }
futures = "0.3"
