[package]
name = "egui_kittest"
version = "0.1.0"
edition = "2021"
publish = false

[dependencies]
egui = { version = "=0.30.0", features = ["accesskit"] }
egui-wgpu = "=0.30.0"
kittest = "=0.1.0"
accesskit_consumer = "=0.25.0"
image = { version = "=0.25.10", default-features = false }
pollster = "=0.3.0"
