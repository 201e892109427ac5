[package]
name = "bgclipper"
version = "0.1.0"
edition = "2021"
publish = false

[dependencies]
arboard = "3"
dirs = "*"
env_logger = "0.11"
image = { version = "0.25", default-features = false, features = ["png"] }
log = "0.4"
objc2-app-kit = "*"
serde = { version = "1", features = ["derive"] }
tao = "*"
toml = "*"
tray-icon = "*"
