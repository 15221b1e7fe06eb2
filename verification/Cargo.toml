[package]
name = "fly_camera"
version = "0.1.0"
edition = "2021"
publish = false

[dependencies]
bevy = { version = "0.10", default-features = false, features = ["bevy_winit", "bevy_render", "bevy_core_pipeline", "bevy_pbr", "bevy_asset", "x11"] }
bevy_egui = { version = "0.20", default-features = false }
