[package]
name = "game_core"
version = "0.1.0"
edition = "2021"
publish = false

[dependencies]
bevy = { version = "0.9", default-features = false, features = ["bevy_asset", "bevy_core_pipeline", "bevy_render", "bevy_ui"] }
bevy_pkv = "0.6"
bevy_quickmenu = "=0.1.5"
