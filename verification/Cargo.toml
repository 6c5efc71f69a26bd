[package]
name = "actor_scene"
version = "0.1.0"
edition = "2021"
publish = false

[dependencies]
rand = "0.8"
sdl2 = { version = "0.37", features = ["image"] }
gl = "0.14"
