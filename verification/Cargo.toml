[package]
name = "surface_lifecycle"
version = "0.1.0"
edition = "2021"
publish = false

[dependencies]
bevy = { version = "=0.6.1", default-features = false, features = ["bevy_winit", "x11"] }
# bevy 0.6's derive macros parse whole items with syn without asking for its
# "full" feature; darling's macros ask for it, so that they build.
darling = "=0.13.4"
pollster = "=0.2.5"
wgpu = "=0.12.0"
