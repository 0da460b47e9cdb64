[package]
name = "bmp280"
version = "0.1.0"
edition = "2021"
publish = false

[dependencies]
embassy-rp = { version = "*", default-features = false, features = ["rp2040"] }
log = "*"
