[package]
name = "render_core"
version = "0.1.0"
edition = "2021"
publish = false

[dependencies]
bytemuck = "1"
wgpu = "0.12"
winit = "0.26"
log = "0.4"
env_logger = "0.9"
cfg-if = "1"
wasm-bindgen = "0.2"
web-sys = { version = "0.3", features = ["Document", "Window", "Element"] }
console_log = "0.2"
console_error_panic_hook = "0.1"
