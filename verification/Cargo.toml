[package]
name = "gfx_texture"
version = "0.1.0"
edition = "2021"
publish = false

[dependencies]
image = "*"
gfx = "*"
gfx_core = "*"
