[package]
name = "gl_text_pipe"
version = "0.1.0"
edition = "2021"
publish = false

[dependencies]
gl = "0.14"
glutin = "0.31"
glutin-winit = "0.4"
glyph_brush = "0.7"
raw-window-handle = "0.5"
spin_sleep_util = "0.1"
winit = "0.29"
