[package]
name = "platformer"
version = "0.1.0"
edition = "2021"
publish = false

[dependencies]
aseprite-loader = "*"
bevy = { version = "0.16", default-features = false, features = ["std", "bevy_asset", "bevy_core_pipeline", "bevy_render", "bevy_sprite", "bevy_window"] }
avian2d = { version = "0.3", default-features = false, features = ["2d", "f32", "parry-f32", "default-collider"] }
