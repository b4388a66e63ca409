[package]
name = "milkv"
version = "0.1.0"
edition = "2021"
publish = false

[dependencies]
embedded-graphics = "=0.8.2"
riscv = "=0.11.1"
serialport = { version = "=4.10.1", default-features = false }
