[package]
name = "caper"
version = "0.1.0"
edition = "2021"
publish = false

[dependencies]
glium = "=0.23.0"
glium_text = "*"
imgui = "*"
noise = "*"
time = "*"
