[package]
name = "trs_24"
version = "0.1.0"
edition = "2021"
publish = false

[dependencies]
json = "=0.12.4"
nalgebra-glm = { version = "=0.21.0", features = ["convert-bytemuck"] }
bytemuck = "1"
stb_image_rust = "=2.27.2"
winit = { version = "=0.30.13", features = ["rwh_05"] }
glutin = "=0.31.3"
raw-window-handle = "=0.5.2"
gl = "=0.14.0"
freetype-rs = "=0.38.0"
