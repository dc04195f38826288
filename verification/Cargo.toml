[package]
name = "terrain_generation"
version = "0.1.0"
edition = "2021"
publish = false

[dependencies]
cgmath = "0.16"
gfx = "0.18"
gfx_device_gl = "0.16"
gfx_window_glutin = "0.31"
glutin = "0.21"
yoga = "0.3"
