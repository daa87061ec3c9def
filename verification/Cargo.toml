[package]
name = "soomer"
version = "0.1.0"
edition = "2021"
publish = false

[dependencies]
image = "=0.24.9"
libwayshot = "0.3"
sdl2 = "=0.38.0"
serde = { version = "=1.0.229", features = ["derive"] }
serde_json = "=1.0.154"
