[package]
name = "ethercat"
version = "0.1.0"
edition = "2021"
publish = false

[dependencies]
ethercat-sys = { version = "=0.3.1", features = ["pregenerated-bindings"] }
libc = "=0.2.191"
