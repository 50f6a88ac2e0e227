[package]
name = "stm32_spi"
version = "0.1.0"
edition = "2021"
publish = false

[dependencies]
embedded-hal = "1.0"
embedded-hal-async = "1.0"
embassy-futures = "0.1"
embassy-embedded-hal = "*"
embassy-hal-internal = "0.2"
