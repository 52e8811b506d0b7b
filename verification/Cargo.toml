[package]
name = "wxplus"
version = "0.1.0"
edition = "2021"
publish = false

[dependencies]
url = "=2.5.8"
serde = { version = "=1.0.229", features = ["derive"] }
reqwest = { version = "=0.13.5", default-features = false, features = ["json"] }
enigo = "=0.6.1"
objc2 = "=0.6.5"
objc2-app-kit = "=0.3.2"
objc2-core-foundation = "=0.3.2"
objc2-core-graphics = "=0.3.2"
