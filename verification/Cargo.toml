[package]
name = "novade_system"
version = "0.1.0"
edition = "2021"
publish = false

[dependencies]
anyhow = "=1.0.104"
calloop = "=0.14.5"
input = { version = "=0.10.0", default-features = false, features = ["libinput_1_21"] }
pollster = "=1.0.1"
raw-window-handle = "=0.6.2"
smithay = { version = "=0.7.0", default-features = false, features = ["backend_winit", "wayland_frontend", "desktop"] }
tracing = "=0.1.44"
