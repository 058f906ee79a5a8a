[package]
name = "pca9548a"
version = "0.1.0"
edition = "2021"
publish = false

[dependencies]
embedded-hal = "1"
embedded-hal-async = "1"
embassy-sync = "*"
embassy-futures = "*"
