[package]
name = "hcsr04"
version = "0.1.0"
edition = "2021"
publish = false

[dependencies]
bon = "*"
embedded-hal = "1"
embedded-hal-async = "1"
