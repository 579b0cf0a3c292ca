[package]
name = "quantum_intruder"
version = "0.1.0"
edition = "2021"
publish = false

[dependencies]
bevy = { version = "=0.16.1", default-features = false, features = ["bevy_asset", "bevy_core_pipeline", "bevy_dev_tools", "bevy_gltf", "bevy_pbr", "bevy_render", "bevy_scene", "bevy_text", "bevy_ui", "bevy_window"] }
bevy_rapier3d = "=0.30.0"
