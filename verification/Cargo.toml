[package]
name = "platformer"
version = "0.1.0"
edition = "2021"
publish = false

[dependencies]
anyhow = "1"
macroquad = "0.3"
rand = "0.8"
sdl2 = "*"
