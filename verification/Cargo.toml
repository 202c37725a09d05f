[package]
name = "ray_marcher"
version = "0.1.0"
edition = "2021"
publish = false

[dependencies]
cgmath = "*"
foreign-types = "0.5"
metal = "*"
objc = "*"
winit = "0.28"
