[package]
name = "drag_keys"
version = "0.1.0"
edition = "2021"
publish = false

[dependencies]
anyhow = "1"
nix = "0.23"
x11rb = { version = "0.9", features = ["xinput", "xtest"] }
