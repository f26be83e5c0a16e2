[package]
name = "osu_beatmap"
version = "0.1.0"
edition = "2021"
publish = false

[dependencies]
bevy = { version = "0.15", default-features = false, features = ["bevy_core_pipeline", "bevy_winit", "x11"] }
