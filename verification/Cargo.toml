[package]
name = "gui"
version = "0.1.0"
edition = "2021"
publish = false

[dependencies]
rand = "0.7"
simple-error = "0.2"
vulkano = "0.14"
vulkano-shaders = "0.14"
vulkano-win = "0.14"
winit = "0.19"
