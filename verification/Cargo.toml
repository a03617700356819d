[package]
name = "hypr_overlay_wl"
version = "0.1.0"
edition = "2021"
publish = false

[dependencies]
serde = { version = "1", features = ["derive"] }
serde_json = "1"
toml = "0.8"
image = { version = "0.25", default-features = false, features = ["png"] }
ureq = { version = "2", features = ["json"] }
calloop = "0.13"
calloop-wayland-source = "0.3"
smithay-client-toolkit = "0.19"
glow = "0.14"
khronos-egl = { version = "6", features = ["dynamic"] }
wayland-egl = "0.32"
fontdue = "0.9"
inotify = "0.11"
tracing = "0.1"
tracing-subscriber = { version = "0.3", features = ["env-filter"] }
