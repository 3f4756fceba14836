[package]
name = "vin_decoder"
version = "0.1.0"
edition = "2021"
publish = false

[dependencies]
byteorder = "1"
eframe = { version = "0.31", default-features = false, features = ["default_fonts", "glow", "x11"] }
egui = "0.31"
image = { version = "0.25", default-features = false, features = ["ico"] }
rfd = "0.15"
