[package]
name = "mandelbrot_viewer"
version = "0.1.0"
edition = "2021"
publish = false

[dependencies]
egui = "0.21"
glium = "0.32"
nalgebra = "0.32"
