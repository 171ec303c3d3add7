[package]
name = "nimiq_logging"
version = "0.1.0"
edition = "2021"
publish = false

[dependencies]
chrono = { version = "0.4", default-features = false, features = ["clock", "std"] }
colored = "1.7"
failure = { version = "0.1", default-features = false, features = ["std"] }
fern = { version = "0.5", features = ["colored"] }
lazy_static = "1.2"
log = { version = "0.4", features = ["std"] }
