[package]
name = "smas_launcher"
version = "0.1.0"
edition = "2021"
publish = false

[dependencies]
gilrs = "*"
sdl2 = "*"
serde = { version = "*", features = ["derive"] }
serde_json = "*"
