[package]
name = "trezor_ui"
version = "0.1.0"
edition = "2021"
publish = false

[dependencies]
easer = "=0.2.1"
pareen = { version = "=0.3.3", features = ["easer"] }
heapless = "=0.9.3"
qrcodegen = "=1.8.0"
