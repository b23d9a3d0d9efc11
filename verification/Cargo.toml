[package]
name = "wginit"
version = "0.1.0"
edition = "2021"
publish = false

[dependencies]
pollster = "0.4"
wasm-bindgen-futures = "0.4"
wgpu = "23"
winit = "0.30"
