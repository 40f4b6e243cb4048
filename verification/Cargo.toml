[package]
name = "tiny_game_framework"
version = "0.1.0"
edition = "2021"
publish = false

[dependencies]
freetype-rs = "=0.38.0"
gl = "=0.14.0"
glam = "=0.29.3"
glfw = "=0.63.0"
image = { version = "=0.25.10", default-features = false, features = ["png", "jpeg"] }
imgui = "=0.12.0"
once_cell = "=1.21.4"
rand = "=0.8.8"
tobj = "=4.0.5"
