[package]
name = "priest_game"
version = "0.1.0"
edition = "2021"
publish = false

[dependencies]
bevy = { version = "0.17", default-features = false }
avian2d = "0.4"
bevy_behave = "0.4"
bevy_ecs_ldtk = "0.13"
