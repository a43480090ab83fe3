[package]
name = "roguelike"
version = "0.1.0"
edition = "2021"
publish = false

[dependencies]
bevy = { version = "0.17", default-features = false, features = ["std", "bevy_state"] }
bevy_ratatui = "0.10"
ratatui = "0.29"
web-time = "1"
