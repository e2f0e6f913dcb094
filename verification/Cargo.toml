[package]
name = "egui_blur_demo"
version = "0.1.0"
edition = "2021"
publish = false

[dependencies]
egui = "=0.29.1"
egui-wgpu = "=0.29.1"
egui-winit = { version = "=0.29.1", default-features = false, features = ["x11"] }
wgpu = "=22.1.0"
winit = { version = "=0.30.13", default-features = false, features = ["x11", "rwh_06"] }
image = { version = "=0.25.10", default-features = false, features = ["png"] }
pollster = "=0.3.0"
raw-window-handle = "=0.6.2"
tracing = "=0.1.44"
tracing-subscriber = { version = "=0.3.23", features = ["env-filter"] }
