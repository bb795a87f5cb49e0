[package]
name = "rpi5_kernel"
version = "0.1.0"
edition = "2021"
publish = false

[dependencies]
aarch64-cpu = "9"
tock-registers = "0.8"
