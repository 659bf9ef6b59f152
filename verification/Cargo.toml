[package]
name = "non_zst"
version = "0.1.0"
edition = "2021"
publish = false

[dependencies]
tracelogging = { version = "1", default-features = false, features = ["etw", "macros"] }
wdk-sys = "*"
