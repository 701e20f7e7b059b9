[package]
name = "shadertoy_rs"
version = "0.1.0"
edition = "2021"
publish = false

[dependencies]
eframe = { version = "=0.31.1", default-features = false, features = ["default_fonts", "wgpu", "x11"] }
egui_extras = { version = "=0.31.1", default-features = false }
egui_logger = "=0.6.3"
instant = "=0.1.13"
log = "=0.4.34"
naga = { version = "=24.0.0", features = ["glsl-in", "spv-out"] }
notify = "=8.2.1"
rfd = "=0.15.4"
wasm-bindgen-futures = "=0.4.79"
web-sys = "=0.3.106"
wgpu = { version = "=24.0.5", default-features = false, features = ["spirv"] }

[dev-dependencies]
std140 = "=0.2.7"
