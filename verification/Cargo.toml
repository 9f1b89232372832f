[package]
name = "polygon"
version = "0.1.0"
edition = "2021"
publish = false

[dependencies]
image = { version = "=0.22.5", default-features = false, features = ["bmp"] }
gfx = "=0.18.3"
gfx_window_glutin = "=0.31.0"
glutin = "=0.21.2"
winit = "=0.19.5"
winapi = "=0.2.8"
gdi32-sys = "=0.2.0"
kernel32-sys = "=0.2.2"
user32-sys = "=0.2.0"
