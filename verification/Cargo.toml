[package]
name = "hello_triangle"
version = "0.1.0"
edition = "2021"
publish = false

[dependencies]
ash = { version = "=0.36.0", features = ["linked"] }
ash-window = "=0.9.1"
winit = "=0.25.0"
log = "=0.4.34"
