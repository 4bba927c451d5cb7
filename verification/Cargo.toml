[package]
name = "moonveil"
version = "0.1.0"
edition = "2021"
publish = false

[dependencies]
iced_core = "*"
iced_widget = { version = "*", default-features = false }
iced = { version = "*", default-features = false }
iced_anim = { version = "*", default-features = false }
