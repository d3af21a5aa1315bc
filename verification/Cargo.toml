[package]
name = "glutin"
version = "0.32.0"
edition = "2021"
publish = false

[dependencies]
libloading = "0.8"
raw-window-handle = "0.6"
