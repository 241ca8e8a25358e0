[package]
name = "image_loader"
version = "0.1.0"
edition = "2021"
publish = false

[dependencies]
egui = { version = "*", default-features = false }
image = { version = "0.25", default-features = false, features = ["gif", "jpeg", "png", "webp"] }
log = "0.4"
