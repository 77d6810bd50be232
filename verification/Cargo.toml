[package]
name = "view_2d"
version = "0.1.0"
edition = "2021"
publish = false

[dependencies]
ahash = "0.8"
anyhow = "1"
bytemuck = "1"
egui = "0.21"
egui-wgpu = "0.21"
glam = "0.22"
itertools = "0.10"
re_data_store = "0.2"
re_renderer = "0.2"
serde = { version = "1", features = ["derive"] }
wgpu = "0.15"
