[package]
name = "gpio_driver"
version = "0.1.0"
edition = "2021"
publish = false

[dependencies]
k210-pac = "=0.2.0"
