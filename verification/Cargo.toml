[package]
name = "leafwing_2d"
version = "0.1.0"
edition = "2021"
publish = false

[dependencies]
bevy_app = "=0.13.2"
bevy_ecs = "=0.13.2"
bevy_math = "=0.13.2"
bevy_time = "=0.13.2"
bevy_transform = "=0.13.2"
