[package]
name = "mouse_area"
version = "0.1.0"
edition = "2021"
publish = false

[dependencies]
iced = { version = "0.8", features = ["image"] }
iced_native = "0.9"
