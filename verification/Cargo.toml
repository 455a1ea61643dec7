[package]
name = "ntp_proto"
version = "0.1.0"
edition = "2021"
publish = false

[dependencies]
libc = "0.2"
tokio = { version = "1", features = ["net", "rt", "time"] }
tracing = "0.1"
