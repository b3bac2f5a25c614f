[package]
name = "zeropad"
version = "0.1.0"
edition = "2021"
publish = false

[dependencies]
eframe = { version = "=0.24.1", default-features = false, features = ["glow"] }
rfd = { version = "=0.12.1", default-features = false, features = ["xdg-portal"] }
