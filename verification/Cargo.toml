[package]
name = "spinning_cube"
version = "0.1.0"
edition = "2021"
publish = false

[dependencies]
bytemuck = "1"
cgmath = "0.18"
egui = "0.16"
env_logger = "0.9"
pollster = "0.2"
raw-window-handle = "0.4"
wgpu = "0.12"
winit = "0.26"
