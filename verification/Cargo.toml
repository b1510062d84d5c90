[package]
name = "engine_core"
version = "0.1.0"
edition = "2021"
publish = false

[dependencies]
quanta = "*"
image = "*"
glyph_brush = "*"
nalgebra = "*"
luminance = "*"
luminance-glfw = "*"
luminance-derive = "*"
rutie = "*"
