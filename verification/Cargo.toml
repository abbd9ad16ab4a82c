[package]
name = "web2image"
version = "0.1.0"
edition = "2021"
publish = false

[dependencies]
anyhow = "1"
clap = { version = "3", features = ["derive"] }
headless_chrome = "0.9"
image = { version = "0.23", default-features = false, features = ["png", "jpeg"] }
qrcode = "0.12"
url = "2"
