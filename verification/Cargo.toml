[package]
name = "font_asset_adapter"
version = "0.1.0"
edition = "2021"
publish = false

[dependencies]
anyhow = "*"
ttf2mesh = "*"
bevy = { version = "0.14", default-features = false, features = ["bevy_asset"] }
