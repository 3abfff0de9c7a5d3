[package]
name = "rei"
version = "0.1.0"
edition = "2021"
publish = false

[dependencies]
anyhow = "1"
bytemuck = "1"
cfg-if = "1"
egui = "0.21"
egui-wgpu = "0.21"
egui_winit_platform = "0.18"
instant = "0.1"
kira = { version = "0.7", default-features = false }
log = "0.4"
rapier3d = "0.17"
reqwest = { version = "0.12", default-features = false }
tokio = { version = "1", features = ["fs"] }
web-sys = { version = "0.3", features = ["Window", "Location"] }
wgpu = "0.15"
winit = { version = "0.28", default-features = false, features = ["x11"] }
