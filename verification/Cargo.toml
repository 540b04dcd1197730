[package]
name = "uvc_capture"
version = "0.1.0"
edition = "2021"
publish = false

[dependencies]
flume = "*"
image = { version = "*", default-features = false }
uvc = "*"
