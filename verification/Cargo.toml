[package]
name = "cellular"
version = "0.1.0"
edition = "2021"
publish = false

[dependencies]
getrandom = "0.2"
line_drawing = "*"
serde = { version = "1", features = ["derive"] }
toml = "0.5"
log = "0.4"
env_logger = "0.9"
winit = "0.26"
winit_input_helper = "0.12"
pixels = "0.9"
