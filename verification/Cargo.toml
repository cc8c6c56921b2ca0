[package]
name = "ht32_hal"
version = "0.1.0"
edition = "2021"
publish = false

[dependencies]
embassy-usb-driver = "*"
embassy-sync = "*"
embassy-futures = "*"
embassy-time = "*"
critical-section = "*"
