[package]
name = "rust_system"
version = "0.1.0"
edition = "2021"
publish = false

[dependencies]
futures = "=0.3.34"
glam = "=0.29.3"
wgpu_rt_lidar = "=0.1.1"
