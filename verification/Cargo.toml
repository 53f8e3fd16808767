[package]
name = "galaxy_orchestrator"
version = "0.1.0"
edition = "2021"
publish = false

[dependencies]
bevy = { version = "0.17", default-features = false, features = ["std", "bevy_asset", "bevy_color", "bevy_log", "bevy_sprite", "bevy_state", "bevy_text", "bevy_ui", "bevy_window"] }
common-game = "=3.0.0"
crossbeam-channel = "=0.5.17"
rand = "=0.9.5"
