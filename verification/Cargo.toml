[package]
name = "native_run"
version = "0.1.0"
edition = "2021"
publish = false

[dependencies]
egui = { version = "=0.24.1", default-features = false }
egui-winit = { version = "0.24", default-features = false }
egui_glow = { version = "0.24", default-features = false }
glow = "0.12"
glutin = "0.30"
glutin-winit = "0.3"
log = "0.4"
parking_lot = "0.12"
pollster = "0.3"
raw-window-handle = "0.5"
winit = "0.28"
