[package]
name = "tum_module_picker"
version = "0.1.0"
edition = "2021"
publish = false

[dependencies]
regex = "*"
time = "*"
