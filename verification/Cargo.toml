[package]
name = "ranim_render"
version = "0.1.0"
edition = "2021"
publish = false

[dependencies]
bytemuck = { version = "*", features = ["derive"] }
clap = { version = "*", features = ["derive"] }
color-eyre = "*"
cstr = "*"
env_logger = "*"
glam = "*"
image = { version = "*", default-features = false, features = ["png"] }
pollster = "*"
rand = "*"
rsmpeg = "*"
thiserror = "*"
wgpu = "*"
winit = { version = "*", default-features = false, features = ["x11", "rwh_06"] }
