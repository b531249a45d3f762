[package]
name = "gl2d"
version = "0.1.0"
edition = "2021"
publish = false

[dependencies]
anyhow = "1"
bytemuck = "1"
glow = "*"
nalgebra = "*"
owned_ttf_parser = "*"
wasm-bindgen = "0.2"
web-sys = { version = "0.3", features = ["WebGl2RenderingContext", "console"] }
