[package]
name = "bluest"
version = "0.1.0"
edition = "2021"
publish = false

[dependencies]
async-channel = "=2.5.0"
futures-core = "=0.3.34"
futures-lite = "=2.6.1"
tracing = "=0.1.44"
