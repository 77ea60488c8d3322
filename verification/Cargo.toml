[package]
name = "vulkrust_play"
version = "0.1.0"
edition = "2021"
publish = false

[dependencies]
anyhow = "1"
ash = "0.38"
ash-window = "0.13"
num = "0.4"
raw-window-handle = "0.6"
softbuffer = "0.4"
winit = "0.30"
