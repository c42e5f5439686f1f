[package]
name = "quad_render"
version = "0.1.0"
edition = "2021"
publish = false

[dependencies]
anyhow = "1"
bytemuck = { version = "1", features = ["derive"] }
cgmath = "0.18"
console_error_panic_hook = "0.1"
console_log = "1"
env_logger = "0.11"
log = "0.4"
pollster = "0.4"
wasm-bindgen = "0.2"
wasm-bindgen-futures = "0.4"
web-sys = { version = "0.3", features = ["Document", "Element", "HtmlCanvasElement", "Window"] }
wgpu = "26.0"
winit = "0.30"
