[package]
name = "aircut_desktop"
version = "0.1.0"
edition = "2021"
publish = false

[dependencies]
cocoa = "*"
image = { version = "0.25", default-features = false, features = ["png"] }
lazy_static = "1"
macos-app-nap = "*"
objc = "0.2"
