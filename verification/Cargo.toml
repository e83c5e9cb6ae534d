[package]
name = "thide"
version = "0.1.0"
edition = "2021"
publish = false

[dependencies]
ico = "0.3"
tray-icon = "0.19"
winit = "0.29"
