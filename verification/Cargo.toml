[package]
name = "mclauncher"
version = "0.1.0"
edition = "2021"
publish = false

[dependencies]
druid = "0.8.3"
image = { version = "0.24", default-features = false, features = ["webp"] }
pollster = "0.3"
