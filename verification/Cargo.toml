[package]
name = "admission_gate"
version = "0.1.0"
edition = "2021"
publish = false

[dependencies]
log = "0.4"
pnet = "*"
tokio = { version = "1", features = ["macros", "rt", "sync", "time"] }
tokio-util = "0.7"
