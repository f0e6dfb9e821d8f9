[package]
name = "jgame"
version = "0.1.0"
edition = "2021"
publish = false

[dependencies]
bevy = { version = "=0.19.1", default-features = false, features = ["bevy_sprite", "bevy_ui", "bevy_text", "bevy_state", "bevy_gizmos", "bevy_window"] }
rand = "0.10"
uuid = { version = "1", features = ["v4"] }
