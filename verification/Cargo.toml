[package]
name = "santa_racer"
version = "0.1.0"
edition = "2021"
publish = false

[dependencies]
rand = "0.7"
sdl2 = { version = "0.34", features = ["image", "mixer"] }
serde = { version = "1", features = ["derive"] }
confy = "0.4"
