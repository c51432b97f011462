[package]
name = "tealdeer"
version = "0.1.0"
edition = "2021"
publish = false

[dependencies]
walkdir = "*"
xdg = "*"
time = "*"

[dev-dependencies]
tempfile = "*"
fs_extra = "*"
