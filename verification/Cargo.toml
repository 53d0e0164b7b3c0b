[package]
name = "cues_mantle"
version = "0.1.0"
edition = "2021"
publish = false

[dependencies]
anyhow = "=1.0.104"
bytemuck = { version = "=1.25.2", features = ["derive"] }
chrono = { version = "=0.4.45", default-features = false, features = ["now"] }
env_logger = { version = "=0.11.11", default-features = false }
glyphon = "=0.6.0"
image = { version = "=0.25.10", default-features = false, features = ["png"] }
log = "=0.4.35"
pollster = "=0.3.0"
wasmtime = { version = "=44.0.3", default-features = false, features = ["cranelift", "runtime", "std"] }
wgpu = "=22.1.0"
winit = "=0.30.13"
