[package]
name = "fp_window"
version = "0.1.0"
edition = "2021"
publish = false

[dependencies]
crossbeam-channel = "0.5"
tracing = "0.1"
