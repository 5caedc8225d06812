[package]
name = "orb_core"
version = "0.1.0"
edition = "2021"
publish = false

[dependencies]
wgpu = "0.19"
flume = "*"
pollster = "*"
bytemuck = "*"
