[package]
name = "lucien"
version = "0.1.0"
edition = "2021"
publish = false

[dependencies]
anyhow = "1"
glam = "*"
image = { version = "*", default-features = false, features = ["png", "gif"] }
serde = { version = "1", features = ["derive"] }
serde_json = "1"
tobj = "*"
