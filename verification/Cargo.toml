[package]
name = "bannerlord_character_system"
version = "0.1.0"
edition = "2021"
publish = false

[dependencies]
bevy = { version = "=0.15.3", default-features = false, features = ["bevy_state", "bevy_asset", "bevy_winit", "x11"] }
bevy_egui = { version = "=0.31.1", default-features = false }
chrono = "=0.4.45"
rand = "=0.8.8"
serde = { version = "=1.0.229", features = ["derive"] }
serde_json = "=1.0.154"
