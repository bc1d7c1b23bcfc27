[package]
name = "del_gl"
version = "0.1.0"
edition = "2021"
publish = false

[dependencies]
num-traits = "0.2"
del-geo-core = "*"
gl = "0.14"
glutin = "0.32"
glutin-winit = "0.5"
raw-window-handle = "0.6"
winit = "0.30"
