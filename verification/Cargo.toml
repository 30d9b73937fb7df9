[package]
name = "oliframe"
version = "0.1.0"
edition = "2021"
publish = false

[dependencies]
clap = { version = "4", features = ["derive"] }
csscolorparser = "*"
env_logger = "*"
image = { version = "0.25", default-features = false, features = ["bmp", "gif", "jpeg", "png", "tiff", "webp"] }
log = "0.4"
rayon = "1"
regex = "1"
thiserror = "*"
walkdir = "2"
