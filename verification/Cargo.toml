[package]
name = "icepaper"
version = "0.1.0"
edition = "2021"
publish = false

[dependencies]
iced = { version = "=0.14.0", default-features = false, features = ["image-without-codecs", "tiny-skia", "tokio", "wayland"] }
image = { version = "0.25", default-features = false, features = ["png"] }
rfd = { version = "0.15", default-features = false, features = ["tokio", "xdg-portal"] }
