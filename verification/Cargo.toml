[package]
name = "wayshot"
version = "0.1.0"
edition = "2021"
publish = false

[dependencies]
nix = "0.26"
image = { version = "0.24", default-features = false, features = ["jpeg"] }
memmap2 = "0.9"
wayland-client = { version = "0.29", features = ["dlopen"] }
wayland-protocols = { version = "0.29", features = ["client", "unstable_protocols"] }
anyhow = "1"
tracing = "0.1"
tracing-subscriber = { version = "0.3", features = ["env-filter"] }
