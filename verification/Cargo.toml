[package]
name = "wayland_osd"
version = "0.1.0"
edition = "2021"
publish = false

[dependencies]
anyhow = "1"
clap = { version = "4", features = ["derive"] }
env_logger = "0.11"
gtk4 = "*"
gtk4-layer-shell = "*"
log = "0.4"
nix = { version = "0.29", features = ["fs"] }
parking_lot = "0.12"
serde = { version = "1", features = ["derive"] }
serde_json = "1"
