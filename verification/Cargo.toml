[package]
name = "haze"
version = "0.1.0"
edition = "2021"
publish = false

[dependencies]
bumpalo = { version = "*", features = ["collections", "boxed"] }
serde = { version = "*", features = ["derive"] }
serde_json = "*"
