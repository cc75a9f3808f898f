[package]
name = "oblivion"
version = "0.1.0"
edition = "2021"
publish = false

[dependencies]
bytemuck = "1"
glam = "0.20"
glyph_brush = "0.7"
lyon = "0.17"
mint = "0.5"
pollster = "0.2"
raw-window-handle = "0.4"
rgb = "0.8"
thiserror = "1"
wgpu = "0.12"
