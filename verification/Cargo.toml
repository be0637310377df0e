[package]
name = "flow_rs"
version = "0.1.0"
edition = "2021"
publish = false

[dependencies]
tokio = { version = "1", features = ["sync", "time", "rt", "rt-multi-thread", "macros", "signal"] }
tokio-util = "0.7"
async-trait = "0.1"
log = "0.4"
derive_builder = "0.20"
