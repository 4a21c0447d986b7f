[package]
name = "bevy_oddio"
version = "0.1.0"
edition = "2021"
publish = false

[dependencies]
anyhow = "1"
bevy_app = "0.5"
bevy_asset = "0.5"
bevy_ecs = "0.5"
bevy_math = "0.5"
bevy_reflect = "0.5"
bevy_transform = "0.5"
bevy_utils = "0.5"
claxon = "0.4"
cpal = "0.13"
minimp3 = "0.5"
oddio = "0.2"
