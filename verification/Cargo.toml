[package]
name = "rolling_ball"
version = "0.1.0"
edition = "2021"
publish = false

[dependencies]
bevy = { version = "0.11", default-features = false }
bevy_rapier3d = { version = "0.22", default-features = false, features = ["dim3"] }
