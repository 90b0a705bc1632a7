[package]
name = "kernel_core"
version = "0.1.0"
edition = "2021"
publish = false

[dependencies]
bootloader = "0.9"
lazy_static = "1"
num_enum = "0.7"
spin = "0.9"
x86_64 = { version = "0.15", default-features = false, features = ["instructions"] }
