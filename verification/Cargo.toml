[package]
name = "embassy-boot-ch32"
version = "0.1.0"
edition = "2021"
publish = false

[dependencies]
embassy-boot = "=0.7.0"
embedded-storage = "=0.3.2"
