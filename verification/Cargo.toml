[package]
name = "debouncer"
version = "0.1.0"
edition = "2021"
publish = false

[dependencies]
embassy-time = "*"
embedded-hal = "1"
embedded-hal-async = "1"
