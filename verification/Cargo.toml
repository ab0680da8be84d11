[package]
name = "bevy_spicy_ldtk"
version = "0.1.0"
edition = "2021"
publish = false

[dependencies]
heck = "=0.3.3"
ldtk2 = "=0.8.0"
serde_json = "=1.0.154"
bevy = { version = "=0.17.3", default-features = false, features = ["bevy_color"] }
