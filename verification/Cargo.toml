[package]
name = "super_clicker"
version = "0.1.0"
edition = "2021"
publish = false

[dependencies]
dark-light = "1"
dirs = "5"
iced = { version = "0.12", default-features = false, features = ["tokio"] }
rdev = "0.5"
serde = { version = "1", features = ["derive"] }
serde_json = "1"
