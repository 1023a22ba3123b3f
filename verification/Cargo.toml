[package]
name = "render_loop"
version = "0.1.0"
edition = "2021"
publish = false

[dependencies]
cfg-if = "1"
console_error_panic_hook = "0.1"
console_log = "0.2"
env_logger = "0.9"
log = "0.4"
wasm-bindgen = "0.2"
web-sys = { version = "0.3", features = ["Document", "Window", "Element"] }
wgpu = "0.14"
winit = "0.27"
