[package]
name = "ntp_core"
version = "0.1.0"
edition = "2021"
publish = false

[dependencies]
tokio = { version = "1", default-features = false, features = ["net", "time", "sync", "rt", "macros"] }
