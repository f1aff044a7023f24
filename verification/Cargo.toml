[package]
name = "qlhighlight"
version = "0.1.0"
edition = "2021"
publish = false

[dependencies]
core-foundation = "*"
hexplay = "*"
plist = "*"
syntect = { version = "*", default-features = false, features = ["default-fancy"] }
