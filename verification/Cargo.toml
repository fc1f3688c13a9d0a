[package]
name = "cycling_visualizer"
version = "0.1.0"
edition = "2021"
publish = false

[dependencies]
flate2 = "1.0.35"
fontdue = "0.8.0"
bytemuck = { version = "1", features = ["derive"] }
glam = { version = "0.25.0", features = ["bytemuck"] }
pollster = "0.3.0"
serde = { version = "1", features = ["derive"] }
serde_json = "1"
