[package]
name = "niri_color"
version = "0.1.0"
edition = "2021"
publish = false

[dependencies]
glam = "=0.34.2"
smithay = { version = "=0.7.0", default-features = false, features = ["wayland_frontend"] }
tracy-client = { version = "=0.19.0", default-features = false }

[dev-dependencies]
drm-fourcc = "=2.2.0"
wayland-protocols = { version = "=0.32.13", features = ["server", "staging"] }
