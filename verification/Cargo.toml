[package]
name = "halcore"
version = "0.1.0"
edition = "2021"
publish = false

[dependencies]
gfx-hal = "0.5"
gfx-backend-vulkan = "0.5"
winit = "0.22"
