[package]
name = "monad_quad"
version = "0.1.0"
edition = "2021"
publish = false

[dependencies]
macroquad = "*"
macroquad-tiled = "*"
futures = "*"
serde = { version = "*", features = ["derive"] }
serde_json = "*"
directories = "*"
