[package]
name = "fly_and_shoot"
version = "0.1.0"
edition = "2021"
publish = false

[dependencies]
bevy = { version = "=0.8.1", default-features = false, features = ["render", "bevy_asset", "bevy_winit", "png", "x11"] }
rand = "=0.8.8"
