[package]
name = "logger"
version = "0.1.0"
edition = "2021"
publish = false

[dependencies]
lazy_static = "1"
libc = "0.2"
log = { version = "0.4", features = ["std"] }
serde = "1"
serde_derive = "1"
serde_json = { version = "1", features = ["float_roundtrip"] }

[dev-dependencies]
tempfile = "3"
