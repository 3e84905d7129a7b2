[package]
name = "yamc"
version = "0.1.0"
edition = "2021"
publish = false

[dependencies]
bevy = { version = "0.16", default-features = false, features = ["std", "bevy_asset", "bevy_color", "bevy_core_pipeline", "bevy_log", "bevy_pbr", "bevy_render", "bevy_window", "bevy_winit", "multi_threaded", "x11"] }
noise = "0.9"
rayon = "1"
