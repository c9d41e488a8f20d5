[package]
name = "borealis"
version = "0.1.0"
edition = "2021"
publish = false

[dependencies]
winit = "0.30"
glutin = "0.32"
glutin-winit = "0.5"
raw-window-handle = "0.6"
femtovg = { version = "0.9", default-features = false }
glfw = "*"
nanovg = "*"
gl = "0.14"
gl_loader = "*"
log = "0.4"
