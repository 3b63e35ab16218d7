[package]
name = "rmk_pointing"
version = "0.1.0"
edition = "2021"
publish = false

[dependencies]
embassy-time = { version = "*", features = ["std"] }
embedded-hal = "1"
embedded-hal-async = "1"
usbd-hid = "*"
quote = "1"
proc-macro2 = "1"
