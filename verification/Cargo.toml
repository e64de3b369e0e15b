[package]
name = "ast_core"
version = "0.1.0"
edition = "2021"
publish = false

[dependencies]
rand = "0.8"
macroquad = "0.4"
rdev = "0.5"
serde = { version = "1", features = ["derive"] }
serde_json = "1"
once_cell = "1"
pollster = "0.3"
futures = "0.3"
walkdir = "2"
chrono = "0.4"
