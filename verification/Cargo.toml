[package]
name = "apk_icon"
version = "0.1.0"
edition = "2021"
publish = false

[dependencies]
apk-info = "*"
zip = { version = "*", default-features = false, features = ["deflate"] }
