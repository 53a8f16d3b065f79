[package]
name = "sprite_grid"
version = "0.1.0"
edition = "2021"
publish = false

[dependencies]
rand = "0.8"
bevy = { version = "=0.5.0", default-features = false, features = ["render"] }
