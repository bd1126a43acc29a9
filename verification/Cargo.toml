[package]
name = "password_generator"
version = "0.1.0"
edition = "2021"
publish = false

[dependencies]
iced = { version = "=0.8.0", features = ["image"] }
im = "=15.1.0"
lazy_static = "=1.5.1"
once_cell = "=1.21.4"
rand = { version = "=0.8.8", features = ["small_rng"] }
serde = { version = "=1.0.229", features = ["derive"] }
