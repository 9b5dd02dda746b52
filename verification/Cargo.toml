[package]
name = "mesh_tools"
version = "0.1.0"
edition = "2021"
publish = false

[dependencies]
serde = { version = "1", features = ["derive"] }
serde_json = "1"
byteorder = "1"
image = { version = "0.24", default-features = false, features = ["png", "jpeg"] }
nalgebra = "*"
mint = "0.5"
glam = "*"
bytemuck = "1"
thiserror = "*"
