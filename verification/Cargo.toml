[package]
name = "tracing_glog"
version = "0.1.0"
edition = "2021"
publish = false

[dependencies]
time = { version = "0.3", features = ["local-offset"] }
tracing = "0.1"
tracing-log = "0.2"
tracing-subscriber = "0.3"
