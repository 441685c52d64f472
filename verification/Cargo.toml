[package]
name = "locomotion"
version = "0.1.0"
edition = "2021"
publish = false

[dependencies]
anyhow = "=1.0.104"
bevy = { version = "=0.12.1", default-features = false, features = ["serialize"] }
bevy_rapier3d = { version = "=0.23.0", default-features = false, features = ["dim3", "headless"] }
serde = { version = "1", features = ["derive"] }
strum = "=0.25.0"
strum_macros = "=0.25.3"
