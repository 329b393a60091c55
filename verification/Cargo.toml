[package]
name = "banana_clicker"
version = "0.1.0"
edition = "2021"
publish = false

[dependencies]
image = { version = "0.25.10", default-features = false, features = ["ico", "png"] }
eframe = { version = "0.36.2", default-features = false, features = ["glow", "x11"] }
enigo = "0.6.1"
