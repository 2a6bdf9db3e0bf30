[package]
name = "frame_scheduler"
version = "0.1.0"
edition = "2021"
publish = false

[dependencies]
log = "0.4"
raw-window-handle = "0.6"
rustc-hash = "2"
winit = { version = "0.30", default-features = false, features = ["rwh_06", "x11"] }
