[package]
name = "surface_viewer"
version = "0.1.0"
edition = "2021"
publish = false

[dependencies]
gl = "=0.14.0"
glam = "=0.24.2"
glutin = { version = "=0.30.10", default-features = false, features = ["egl", "glx", "x11"] }
glutin-winit = { version = "=0.3.0", default-features = false, features = ["egl", "glx", "x11"] }
image = { version = "=0.24.9", default-features = false, features = ["jpeg"] }
raw-window-handle = "=0.5.2"
winit = { version = "=0.28.7", default-features = false, features = ["x11"] }
