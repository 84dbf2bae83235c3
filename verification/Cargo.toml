[package]
name = "sprite_motion"
version = "0.1.0"
edition = "2021"
publish = false

[dependencies]
bevy = { version = "0.14.2", default-features = false, features = ["bevy_asset"] }
serde = { version = "1", features = ["derive"] }
