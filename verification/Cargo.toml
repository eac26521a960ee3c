[package]
name = "rustgb"
version = "0.1.0"
edition = "2021"
publish = false

[dependencies]
sdl2 = "=0.38.0"
app_dirs = "=1.2.1"
