[package]
name = "mandelbrot_visualizer"
version = "0.1.0"
edition = "2021"
publish = false

[dependencies]
base64 = "0.21"
tokio = { version = "1", features = ["process"] }
