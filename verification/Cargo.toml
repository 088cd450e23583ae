[package]
name = "w5500"
version = "0.1.0"
edition = "2021"
publish = false

[dependencies]
byteorder = { version = "1", default-features = false }
embedded-hal = "1.0"
embedded-hal-async = "1.0"
futures = { version = "0.3", default-features = false }
