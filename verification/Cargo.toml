[package]
name = "raven_rg"
version = "0.1.0"
edition = "2021"
publish = false

[dependencies]
ash = "=0.38.0"
vk-sync-fork = "=0.5.2"
gpu-allocator = "=0.28.0"
anyhow = "=1.0.104"
log = "=0.4.35"
parking_lot = "=0.13.0"
arrayvec = "=0.7.8"
rspirv-reflect = "=0.9.0"
byte-slice-cast = "=1.2.3"
bytes = "=1.12.1"
derive_builder = "=0.20.2"
once_cell = "=1.21.4"
smol = "=2.0.2"
futures = "=0.3.34"
relative-path = "=2.0.3"
shader-prepper = "=0.2.0"
failure = "=0.1.8"
hassle-rs = "=0.12.0"
winit = "=0.30.13"
winapi = { version = "=0.3.9", features = ["winuser", "libloaderapi"] }
