[package]
name = "keyscreen"
version = "0.1.0"
edition = "2021"
publish = false

[dependencies]
eframe = { version = "0.22", default-features = false, features = ["glow"] }
catppuccin-egui = "3"
rdev = "0.5"
