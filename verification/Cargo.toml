[package]
name = "arena2d"
version = "0.1.0"
edition = "2021"
publish = false

[dependencies]
bevy = "0.5"
bevy_rapier2d = "0.11"
