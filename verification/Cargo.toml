[package]
name = "stm32l0_usb"
version = "0.1.0"
edition = "2021"
publish = false

[dependencies]
cortex-m = "0.7"
stm32-usbd = "*"
