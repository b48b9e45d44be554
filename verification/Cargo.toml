[package]
name = "sdl3_wrap"
version = "0.1.0"
edition = "2021"
publish = false

[dependencies]
log = "*"
sdl3-sys = "*"
sdl3-main = "*"
