[package]
name = "bevy_gltf"
version = "0.1.0"
edition = "2021"
publish = false

[dependencies]
bevy_animation = "0.16"
bevy_app = "0.16"
bevy_asset = "0.16"
bevy_ecs = "0.16"
bevy_image = "0.16"
bevy_mesh = "0.16"
bevy_pbr = "0.16"
bevy_platform = "0.16"
bevy_reflect = "0.16"
bevy_render = "0.16"
bevy_scene = "0.16"
bevy_transform = "0.16"
gltf = { version = "1", default-features = false, features = ["names", "utils", "extras"] }
