[package]
name = "pulsar"
version = "0.1.0"
edition = "2021"
publish = false

[dependencies]
bytemuck = "=1.25.2"
env_logger = "=0.11.11"
log = "=0.4.34"
pollster = "=1.0.1"
thiserror = "=2.0.21"
wgpu = "=24.0.5"
winit = "=0.30.13"
