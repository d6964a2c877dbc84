[package]
name = "stm32_extras"
version = "0.1.0"
edition = "2021"
publish = false

[dependencies]
vcell = "0.1"
stm32f103xx = "*"
