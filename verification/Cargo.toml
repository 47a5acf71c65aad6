[package]
name = "intsar3d"
version = "0.1.0"
edition = "2021"
publish = false

[dependencies]
glam = "*"
env_logger = "*"
bytemuck = { version = "1", features = ["derive"] }
