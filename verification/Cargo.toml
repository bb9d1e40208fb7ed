[package]
name = "render_plan"
version = "0.1.0"
edition = "2021"
publish = false

[dependencies]
c_str_macro = "*"
cgmath = "*"
gl = "*"
sdl2 = "*"
