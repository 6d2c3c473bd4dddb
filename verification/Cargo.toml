[package]
name = "zmouse"
version = "0.1.0"
edition = "2021"
publish = false

[dependencies]
core-foundation = "=0.10.1"
core-graphics = { version = "=0.25.0", default-features = false }
dirs = "=7.0.0"
eframe = { version = "=0.35.0", default-features = false, features = ["glow", "default_fonts", "x11"] }
objc2 = "=0.6.5"
objc2-app-kit = "=0.3.2"
objc2-core-foundation = "=0.3.2"
objc2-foundation = "=0.3.2"
objc2-io-kit = "=0.3.2"
objc2-service-management = "=0.3.2"
serde = { version = "=1.0.229", features = ["derive"] }
tiny-skia = "=0.12.0"
toml = "=1.1.8"
