[package]
name = "editor_ui"
version = "0.1.0"
edition = "2021"
publish = false

[dependencies]
smallvec = "=1.16.2"
bevy = { version = "=0.17.3", default-features = false, features = ["bevy_ui", "bevy_core_pipeline", "bevy_asset", "bevy_state", "bevy_text"] }
