[package]
name = "chip8"
version = "0.1.0"
edition = "2021"
publish = false

[dependencies]
array2d = "*"
piston = "*"
pistoncore-glutin_window = "*"
piston2d-graphics = "*"
piston2d-opengl_graphics = "*"
piston-music = "*"
