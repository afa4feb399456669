[package]
name = "render_core"
version = "0.1.0"
edition = "2021"
publish = false

[dependencies]
ash = "0.31"
notify = "4"
png = "0.16"
serde = { version = "1", features = ["derive"] }
serde_yaml = "0.8"
shaderc = "0.6"
winit = "0.22"
