[package]
name = "brt-can-protocol"
version = "0.1.0"
edition = "2021"
publish = false

[dependencies]
embedded-can = "0.4.1"
embassy-stm32 = { version = "0.6.0", default-features = false, features = ["stm32h723vg"] }
