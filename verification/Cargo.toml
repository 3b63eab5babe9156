[package]
name = "window_screenshot"
version = "0.1.0"
edition = "2021"
publish = false

[dependencies]
base64 = "0.21"
image = { version = "0.25", default-features = false, features = ["jpeg"] }
log = "0.4"
serde = { version = "1", features = ["derive"] }
serde_json = "1"
xcap = "*"
