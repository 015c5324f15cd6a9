[package]
name = "terrain_editor"
version = "0.1.0"
edition = "2021"
publish = false

[dependencies]
image = { version = "=0.25.10", default-features = false, features = ["bmp", "dds", "exr", "ff", "gif", "hdr", "ico", "jpeg", "png", "pnm", "qoi", "tga", "tiff", "webp"] }
rand = "=0.8.8"
bevy = { version = "=0.16.1", default-features = false, features = ["bevy_pbr", "bevy_core_pipeline", "bevy_render", "bevy_window", "bevy_asset"] }
