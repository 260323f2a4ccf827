[package]
name = "loki_gb"
version = "0.1.0"
edition = "2021"
publish = false

[dependencies]
serde = { version = "1", features = ["derive"] }
serde_json = "1"
softbuffer = "0.4"
winit = "0.29"
winit_input_helper = "0.15"
