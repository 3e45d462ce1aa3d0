[package]
name = "iced_graphics"
version = "0.1.0"
edition = "2021"
publish = false

[dependencies]
iced_native = "0.5"
iced_style = "0.4"
