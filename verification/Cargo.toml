[package]
name = "cool_shapes"
version = "0.1.0"
edition = "2021"
publish = false

[dependencies]
bevy_math = { version = "=0.19.1", default-features = false, features = ["std"] }
glam = { version = "=0.32.1", features = ["bytemuck"] }
bytemuck = "=1.25.2"
