[package]
name = "stele"
version = "0.1.2"
edition = "2021"
publish = false

[dependencies]
chrono = "=0.4.45"
url = "=2.5.8"
dispatch2 = "0.3"
objc2-app-kit = "0.3"
objc2-foundation = "0.3"
global-hotkey = "0.7"
tray-icon = "0.21"
image = { version = "0.25", default-features = false, features = ["png"] }
