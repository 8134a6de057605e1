[package]
name = "snake"
version = "0.1.0"
edition = "2021"

[dependencies]
bevy = { version = "0.8", default-features = false, features = ["render", "bevy_winit", "x11"] }
rand = "0.7"
