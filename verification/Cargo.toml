[package]
name = "obj_mesh"
version = "0.1.0"
edition = "2021"
publish = false

[dependencies]
anyhow = "1"
bevy = { version = "0.5", default-features = false }
bevy_asset = "0.5"
bevy_render = "0.5"
bevy_utils = "0.5"
glam = "0.13"
obj-rs = "0.6"
thiserror = "1"
