[package]
name = "ime_indicator"
version = "0.1.0"
edition = "2021"
publish = false

[dependencies]
anyhow = "1"
cairo-rs = { version = "*", default-features = false }
dbus = "*"
memmap2 = "*"
nix = { version = "*", features = ["fs"] }
ron = "*"
serde = { version = "1", features = ["derive"] }
tempfile = "3"
wayland-client = "0.31"
wayland-protocols-wlr = { version = "*", features = ["client"] }
